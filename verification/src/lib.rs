//! A relay between two publish/subscribe brokers: the decisions of its
//! stages, stated and proved.

pub mod args;
pub mod loader;
pub mod msg;
pub mod process;
pub mod proxy;
pub mod read;
pub mod stage;
pub mod stats;
pub mod text;
pub mod timer;
pub mod write;

pub use loader::SimpleModuleLoader;
