//! The unit of data that moves through the relay.

use vstd::prelude::*;
use vstd::string::*;
use vstd::utf8::*;

verus! {

/// What a message is: a topic and the bytes published under it.
pub struct MsgView {
    pub topic: Seq<char>,
    pub payload: Seq<u8>,
}

/// A message on its way from the upstream broker to the downstream one.
#[derive(Debug)]
pub struct Msg {
    pub data: Vec<u8>,
    pub topic: String,
}

impl View for Msg {
    type V = MsgView;

    open spec fn view(&self) -> MsgView {
        MsgView { topic: self.topic@, payload: self.data@ }
    }
}

impl Msg {
    /// A message with the given payload, published under `topic`.
    pub fn new(data: Vec<u8>, topic: String) -> (msg: Self)
        ensures
            msg@ == (MsgView { topic: topic@, payload: data@ }),
    {
        Self { topic, data }
    }

    /// A message whose payload is the UTF-8 encoding of `data`.
    pub fn from_str(data: String, topic: String) -> (msg: Self)
        ensures
            msg@ == (MsgView { topic: topic@, payload: encode_utf8(data@) }),
    {
        let bytes = data.as_str().as_bytes_vec();
        Self { topic, data: bytes }
    }

    /// The text a message is shown as: its topic.
    pub fn to_string(&self) -> (text: String)
        ensures
            text@ == self@.topic,
    {
        self.topic.clone()
    }
}

} // verus!
