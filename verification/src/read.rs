//! The ingress stage: what it does with a message that arrives, and the
//! order of its steps.

use crate::msg::{Msg, MsgView};
use crate::stage::{ending_view, failed, reply_view, Fault, StageError, StageErrorView};
use vstd::prelude::*;

verus! {

/// What ingress hands on for one message that arrived.
#[derive(Debug)]
pub struct Delivery {
    /// The size of the payload in bytes, for the statistics.
    pub sample: usize,
    /// The message, for the next stage.
    pub msg: Msg,
}

/// A delivery, its message by its view.
pub struct DeliveryView {
    pub sample: nat,
    pub msg: MsgView,
}

impl View for Delivery {
    type V = DeliveryView;

    open spec fn view(&self) -> DeliveryView {
        DeliveryView { sample: self.sample as nat, msg: self.msg@ }
    }
}

/// What is handed on for the payload `data` that arrived under
/// `subject`: the payload's length, and the message as it came.
pub open spec fn delivered(subject: Seq<char>, data: Seq<u8>) -> DeliveryView {
    DeliveryView { sample: data.len(), msg: MsgView { topic: subject, payload: data } }
}

/// Wraps what arrived under `subject` for the two queues that ingress
/// feeds.
pub fn deliver(subject: String, data: Vec<u8>) -> (delivery: Delivery)
    ensures
        delivery@ == delivered(subject@, data@),
{
    let sample: usize = data.len();
    Delivery { sample, msg: Msg::new(data, subject) }
}

/// What happened at ingress since its last step.
#[derive(Debug)]
pub enum ReadEvent {
    /// The stage was started.
    Started,
    /// The upstream broker answered the connection attempt.
    Connected(Result<(), String>),
    /// The broker answered the subscription to the topic at this index.
    Subscribed(usize, Result<(), String>),
    /// The shutdown flag was read, with this value.
    Observed(bool),
    /// A pause between two looks at the flag is over.
    Rested,
    /// The pause after the flag was seen raised is over.
    Lingered,
}

/// What ingress does next.
#[derive(Debug)]
pub enum ReadAction {
    /// Connect to the upstream broker.
    Connect,
    /// Subscribe to the topic at this index, with a handler that
    /// delivers each message.
    Subscribe(usize),
    /// Read the shutdown flag.
    Observe,
    /// Pause, then read the flag again.
    Rest,
    /// Pause once more, then end.
    Linger,
    /// End the stage with this result.
    Finish(Result<(), StageError>),
}

/// An ingress event, its texts by their characters.
pub enum ReadEventView {
    Started,
    Connected(Result<(), Seq<char>>),
    Subscribed(nat, Result<(), Seq<char>>),
    Observed(bool),
    Rested,
    Lingered,
}

/// An ingress action, a failure by its view.
pub enum ReadActionView {
    Connect,
    Subscribe(nat),
    Observe,
    Rest,
    Linger,
    Finish(Result<(), StageErrorView>),
}

impl View for ReadEvent {
    type V = ReadEventView;

    open spec fn view(&self) -> ReadEventView {
        match self {
            ReadEvent::Started => ReadEventView::Started,
            ReadEvent::Connected(reply) => ReadEventView::Connected(reply_view(*reply)),
            ReadEvent::Subscribed(index, reply) => ReadEventView::Subscribed(
                *index as nat,
                reply_view(*reply),
            ),
            ReadEvent::Observed(shutdown) => ReadEventView::Observed(*shutdown),
            ReadEvent::Rested => ReadEventView::Rested,
            ReadEvent::Lingered => ReadEventView::Lingered,
        }
    }
}

impl View for ReadAction {
    type V = ReadActionView;

    open spec fn view(&self) -> ReadActionView {
        match self {
            ReadAction::Connect => ReadActionView::Connect,
            ReadAction::Subscribe(index) => ReadActionView::Subscribe(*index as nat),
            ReadAction::Observe => ReadActionView::Observe,
            ReadAction::Rest => ReadActionView::Rest,
            ReadAction::Linger => ReadActionView::Linger,
            ReadAction::Finish(ending) => ReadActionView::Finish(ending_view(*ending)),
        }
    }
}

/// The step after the topics before `next` have been subscribed to: the
/// topic at `next`, or the first look at the flag when none is left.
pub open spec fn subscribe_from(topics: nat, next: nat) -> ReadActionView {
    if next < topics {
        ReadActionView::Subscribe(next)
    } else {
        ReadActionView::Observe
    }
}

/// What ingress does after `event`, with `topics` topics configured. It
/// connects, then subscribes to the topics one by one in their order,
/// then looks at the shutdown flag once per pause until it sees it
/// raised. A failure to connect or to subscribe ends it at once.
pub open spec fn read_step(topics: nat, event: ReadEventView) -> ReadActionView {
    match event {
        ReadEventView::Started => ReadActionView::Connect,
        ReadEventView::Connected(Ok(())) => subscribe_from(topics, 0),
        ReadEventView::Connected(Err(said)) => ReadActionView::Finish(failed(Fault::Connect, said)),
        ReadEventView::Subscribed(index, Ok(())) => subscribe_from(topics, index + 1),
        ReadEventView::Subscribed(_, Err(said)) => ReadActionView::Finish(
            failed(Fault::Subscribe, said),
        ),
        ReadEventView::Observed(shutdown) => if shutdown {
            ReadActionView::Linger
        } else {
            ReadActionView::Rest
        },
        ReadEventView::Rested => ReadActionView::Observe,
        ReadEventView::Lingered => ReadActionView::Finish(Ok(())),
    }
}

/// The next step of ingress after `event`, with `topics` topics
/// configured.
pub fn step(topics: usize, event: ReadEvent) -> (action: ReadAction)
    ensures
        action@ == read_step(topics as nat, event@),
{
    match event {
        ReadEvent::Started => ReadAction::Connect,
        ReadEvent::Connected(Ok(())) => subscribe_at(topics, 0),
        ReadEvent::Connected(Err(said)) => ReadAction::Finish(
            Err(StageError::new(Fault::Connect, said)),
        ),
        ReadEvent::Subscribed(index, Ok(())) => {
            if index < topics {
                subscribe_at(topics, index + 1)
            } else {
                ReadAction::Observe
            }
        },
        ReadEvent::Subscribed(_, Err(said)) => ReadAction::Finish(
            Err(StageError::new(Fault::Subscribe, said)),
        ),
        ReadEvent::Observed(shutdown) => {
            if shutdown {
                ReadAction::Linger
            } else {
                ReadAction::Rest
            }
        },
        ReadEvent::Rested => ReadAction::Observe,
        ReadEvent::Lingered => ReadAction::Finish(Ok(())),
    }
}

fn subscribe_at(topics: usize, next: usize) -> (action: ReadAction)
    ensures
        action@ == subscribe_from(topics as nat, next as nat),
{
    if next < topics {
        ReadAction::Subscribe(next)
    } else {
        ReadAction::Observe
    }
}

/// The action that follows when the first `acknowledged` subscriptions
/// have each been answered with success, in order.
pub open spec fn after_subscriptions(topics: nat, acknowledged: nat) -> ReadActionView
    decreases acknowledged,
{
    if acknowledged == 0 {
        read_step(topics, ReadEventView::Connected(Ok(())))
    } else {
        read_step(topics, ReadEventView::Subscribed((acknowledged - 1) as nat, Ok(())))
    }
}

/// Ingress subscribes to every configured topic once, in the order
/// given, and looks at the shutdown flag only when all are subscribed
/// to: after `acknowledged` successes the next step is the subscription
/// to the topic at that index while one is left, and the first look at
/// the flag when none is.
pub proof fn subscribes_each_topic_in_order(topics: nat, acknowledged: nat)
    requires
        acknowledged <= topics,
    ensures
        acknowledged < topics ==> after_subscriptions(topics, acknowledged)
            == ReadActionView::Subscribe(acknowledged),
        acknowledged == topics ==> after_subscriptions(topics, acknowledged)
            == ReadActionView::Observe,
{
}

/// Ingress ends of itself only once it has seen the flag raised: while
/// the flag is down it pauses and looks again.
pub proof fn idles_until_shutdown(topics: nat)
    ensures
        read_step(topics, ReadEventView::Observed(false)) == ReadActionView::Rest,
        read_step(topics, ReadEventView::Rested) == ReadActionView::Observe,
        read_step(topics, ReadEventView::Observed(true)) == ReadActionView::Linger,
        read_step(topics, ReadEventView::Lingered) == ReadActionView::Finish(Ok(())),
{
}

} // verus!
