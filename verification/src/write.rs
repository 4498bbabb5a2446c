//! The egress stage: the order of its steps, and which publish failures
//! end it.

use crate::msg::{Msg, MsgView};
use crate::stage::{ending_view, failed, reply_view, Fault, StageError, StageErrorView};
use vstd::prelude::*;

verus! {

/// The classes of a publish failure that egress tells apart.
#[derive(Debug, Clone, Copy, PartialEq, Eq, Structural)]
pub enum FailureClass {
    /// The connection to the downstream broker was aborted.
    ConnectionAborted,
    /// Anything else, such as a message the broker turned away.
    Other,
}

/// A publish that failed.
#[derive(Debug)]
pub struct PublishFailure {
    /// The class of the failure.
    pub class: FailureClass,
    /// What the broker client said of it, for people to read.
    pub detail: String,
}

/// A failed publish, its detail by its characters.
pub struct PublishFailureView {
    pub class: FailureClass,
    pub detail: Seq<char>,
}

impl View for PublishFailure {
    type V = PublishFailureView;

    open spec fn view(&self) -> PublishFailureView {
        PublishFailureView { class: self.class, detail: self.detail@ }
    }
}

/// How a publish went, a failure by its view.
pub open spec fn published_view(outcome: Result<(), PublishFailure>) -> Result<
    (),
    PublishFailureView,
> {
    match outcome {
        Ok(()) => Ok(()),
        Err(failure) => Err(failure@),
    }
}

/// What happened at egress since its last step.
#[derive(Debug)]
pub enum WriteEvent {
    /// The stage was started.
    Started,
    /// The downstream broker answered the connection attempt.
    Connected(Result<(), String>),
    /// The shutdown flag was read, with this value.
    Observed(bool),
    /// This message came off the queue.
    Received(Msg),
    /// The publish of the last message ended so.
    Published(Result<(), PublishFailure>),
}

/// What egress does next.
#[derive(Debug)]
pub enum WriteAction {
    /// Connect to the downstream broker.
    Connect,
    /// Read the shutdown flag.
    Observe,
    /// Wait for the next message on the queue.
    Receive,
    /// Publish this message under its topic.
    Publish(Msg),
    /// End the stage with this result.
    Finish(Result<(), StageError>),
}

/// An egress event, by the views of what it holds.
pub enum WriteEventView {
    Started,
    Connected(Result<(), Seq<char>>),
    Observed(bool),
    Received(MsgView),
    Published(Result<(), PublishFailureView>),
}

/// An egress action, by the views of what it holds.
pub enum WriteActionView {
    Connect,
    Observe,
    Receive,
    Publish(MsgView),
    Finish(Result<(), StageErrorView>),
}

impl View for WriteEvent {
    type V = WriteEventView;

    open spec fn view(&self) -> WriteEventView {
        match self {
            WriteEvent::Started => WriteEventView::Started,
            WriteEvent::Connected(reply) => WriteEventView::Connected(reply_view(*reply)),
            WriteEvent::Observed(shutdown) => WriteEventView::Observed(*shutdown),
            WriteEvent::Received(msg) => WriteEventView::Received(msg@),
            WriteEvent::Published(outcome) => WriteEventView::Published(published_view(*outcome)),
        }
    }
}

impl View for WriteAction {
    type V = WriteActionView;

    open spec fn view(&self) -> WriteActionView {
        match self {
            WriteAction::Connect => WriteActionView::Connect,
            WriteAction::Observe => WriteActionView::Observe,
            WriteAction::Receive => WriteActionView::Receive,
            WriteAction::Publish(msg) => WriteActionView::Publish(msg@),
            WriteAction::Finish(ending) => WriteActionView::Finish(ending_view(*ending)),
        }
    }
}

/// What egress does after a publish: it goes on after a success and
/// after any failure but an aborted connection, which ends it with that
/// failure.
pub open spec fn after_publish(outcome: Result<(), PublishFailureView>) -> WriteActionView {
    match outcome {
        Ok(()) => WriteActionView::Observe,
        Err(failure) => match failure.class {
            FailureClass::ConnectionAborted => WriteActionView::Finish(
                failed(Fault::Publish, failure.detail),
            ),
            FailureClass::Other => WriteActionView::Observe,
        },
    }
}

/// What egress does after `event`. It connects, then in turn looks at
/// the shutdown flag, waits for a message and publishes it as it came,
/// one message at a time in the order of the queue. It ends when it
/// sees the flag raised, when it cannot connect, and when a publish
/// fails with an aborted connection.
pub open spec fn write_step(event: WriteEventView) -> WriteActionView {
    match event {
        WriteEventView::Started => WriteActionView::Connect,
        WriteEventView::Connected(Ok(())) => WriteActionView::Observe,
        WriteEventView::Connected(Err(said)) => WriteActionView::Finish(
            failed(Fault::Connect, said),
        ),
        WriteEventView::Observed(shutdown) => if shutdown {
            WriteActionView::Finish(Ok(()))
        } else {
            WriteActionView::Receive
        },
        WriteEventView::Received(msg) => WriteActionView::Publish(msg),
        WriteEventView::Published(outcome) => after_publish(outcome),
    }
}

/// The next step of egress after `event`.
pub fn step(event: WriteEvent) -> (action: WriteAction)
    ensures
        action@ == write_step(event@),
{
    match event {
        WriteEvent::Started => WriteAction::Connect,
        WriteEvent::Connected(Ok(())) => WriteAction::Observe,
        WriteEvent::Connected(Err(said)) => WriteAction::Finish(
            Err(StageError::new(Fault::Connect, said)),
        ),
        WriteEvent::Observed(shutdown) => {
            if shutdown {
                WriteAction::Finish(Ok(()))
            } else {
                WriteAction::Receive
            }
        },
        WriteEvent::Received(msg) => WriteAction::Publish(msg),
        WriteEvent::Published(Ok(())) => WriteAction::Observe,
        WriteEvent::Published(Err(failure)) => match failure.class {
            FailureClass::ConnectionAborted => WriteAction::Finish(
                Err(StageError::new(Fault::Publish, failure.detail)),
            ),
            FailureClass::Other => WriteAction::Observe,
        },
    }
}

/// The messages that come off the queue over the events in `events`,
/// in their order.
pub open spec fn received_over(events: Seq<WriteEventView>) -> Seq<MsgView>
    decreases events.len(),
{
    if events.len() == 0 {
        Seq::empty()
    } else {
        let earlier = received_over(events.drop_last());
        match events.last() {
            WriteEventView::Received(msg) => earlier.push(msg),
            _ => earlier,
        }
    }
}

/// The messages that egress asks to have published over the events in
/// `events`, in the order in which it asks.
pub open spec fn published_over(events: Seq<WriteEventView>) -> Seq<MsgView>
    decreases events.len(),
{
    if events.len() == 0 {
        Seq::empty()
    } else {
        let earlier = published_over(events.drop_last());
        match write_step(events.last()) {
            WriteActionView::Publish(msg) => earlier.push(msg),
            _ => earlier,
        }
    }
}

/// Egress publishes what comes off the queue, each message once, as it
/// came and in the order of the queue, and nothing else.
pub proof fn publishes_in_queue_order(events: Seq<WriteEventView>)
    ensures
        published_over(events) == received_over(events),
    decreases events.len(),
{
    if events.len() > 0 {
        publishes_in_queue_order(events.drop_last());
    }
}

/// A publish that fails with an aborted connection ends egress, with a
/// failure that carries what was said of it; no other outcome of a
/// publish ends it.
pub proof fn only_abort_ends_egress(outcome: Result<(), PublishFailureView>)
    ensures
        write_step(WriteEventView::Published(outcome)) is Finish <==> (outcome matches Err(failure)
            && failure.class == FailureClass::ConnectionAborted),
        outcome matches Err(failure) ==> (failure.class == FailureClass::ConnectionAborted
            ==> write_step(WriteEventView::Published(outcome)) == WriteActionView::Finish(
            failed(Fault::Publish, failure.detail),
        )),
{
}

} // verus!
