//! The orchestrator: how the stages are wired for a configuration, and
//! what the run as a whole ends with.

use crate::args::Args;
use crate::msg::MsgView;
use crate::read::delivered;
use crate::stage::{ending_view, failed, Fault, StageError, StageErrorView};
use crate::write::{
    published_over, write_step, FailureClass, PublishFailureView, WriteActionView, WriteEventView,
};
use vstd::prelude::*;

verus! {

/// How many messages the queue into egress holds before a send into it
/// blocks.
pub const EGRESS_CAPACITY: usize = 1024;

/// How much a queue between two stages holds.
#[derive(Debug, Clone, Copy, PartialEq, Eq, Structural)]
pub enum Queue {
    /// At most this many items: a send into a full queue waits.
    Bounded(usize),
    /// As many as are sent: a send never waits.
    Unbounded,
}

/// The queues of one run.
#[derive(Debug, Clone, Copy, PartialEq, Eq, Structural)]
pub struct Wiring {
    /// From ingress to the statistics.
    pub stats: Queue,
    /// From ingress to the transform stage, where the run has one.
    pub transform: Option<Queue>,
    /// Into egress: from the transform stage where the run has one, from
    /// ingress where it has none.
    pub egress: Queue,
}

/// The wiring of a run with or without a transform stage. Whichever it
/// is, the queue into egress is the one bounded queue, and it holds
/// `EGRESS_CAPACITY` messages.
pub open spec fn wiring_for(transform: bool) -> Wiring {
    Wiring {
        stats: Queue::Unbounded,
        transform: if transform {
            Some(Queue::Unbounded)
        } else {
            None
        },
        egress: Queue::Bounded(EGRESS_CAPACITY),
    }
}

/// The wiring for `args`: with a transform stage where a script was
/// supplied, without one where none was.
pub fn wiring(args: &Args) -> (wiring: Wiring)
    ensures
        wiring == wiring_for(args@.script.len() > 0),
{
    Wiring {
        stats: Queue::Unbounded,
        transform: if args.has_script() {
            Some(Queue::Unbounded)
        } else {
            None
        },
        egress: Queue::Bounded(EGRESS_CAPACITY),
    }
}

/// What a run ends with, given how its stages ended: the first failure
/// among ingress, statistics, egress and, where there is one, the
/// transform stage, in that order; success where none failed.
pub open spec fn overall(
    ingress: Result<(), StageErrorView>,
    stats: Result<(), StageErrorView>,
    egress: Result<(), StageErrorView>,
    transform: Option<Result<(), StageErrorView>>,
) -> Result<(), StageErrorView> {
    if ingress is Err {
        ingress
    } else if stats is Err {
        stats
    } else if egress is Err {
        egress
    } else {
        match transform {
            Some(ending) => ending,
            None => Ok(()),
        }
    }
}

/// How the transform stage ended, where the run had one, by its view.
pub open spec fn optional_ending_view(ending: Option<Result<(), StageError>>) -> Option<
    Result<(), StageErrorView>,
> {
    match ending {
        Some(ending) => Some(ending_view(ending)),
        None => None,
    }
}

/// The result of the run whose stages ended as given.
pub fn conclude(
    ingress: Result<(), StageError>,
    stats: Result<(), StageError>,
    egress: Result<(), StageError>,
    transform: Option<Result<(), StageError>>,
) -> (ending: Result<(), StageError>)
    ensures
        ending_view(ending) == overall(
            ending_view(ingress),
            ending_view(stats),
            ending_view(egress),
            optional_ending_view(transform),
        ),
{
    if ingress.is_err() {
        return ingress;
    }
    if stats.is_err() {
        return stats;
    }
    if egress.is_err() {
        return egress;
    }
    match transform {
        Some(ending) => ending,
        None => Ok(()),
    }
}

/// A run succeeds exactly when every one of its stages does.
pub proof fn succeeds_only_if_all_do(
    ingress: Result<(), StageErrorView>,
    stats: Result<(), StageErrorView>,
    egress: Result<(), StageErrorView>,
    transform: Option<Result<(), StageErrorView>>,
)
    ensures
        overall(ingress, stats, egress, transform) is Ok <==> (ingress is Ok && stats is Ok
            && egress is Ok && (transform matches Some(ending) ==> ending is Ok)),
{
}

/// What arrives at ingress: the subject it arrives under, and its
/// payload.
pub struct Arrival {
    pub subject: Seq<char>,
    pub data: Seq<u8>,
}

/// The events at egress when what ingress delivers for `arrivals`
/// comes off the queue in the order of arrival.
pub open spec fn direct_events(arrivals: Seq<Arrival>) -> Seq<WriteEventView> {
    Seq::new(
        arrivals.len(),
        |i: int| WriteEventView::Received(delivered(arrivals[i].subject, arrivals[i].data).msg),
    )
}

/// The messages that `arrivals` hold: each subject as a topic, each
/// payload as it is.
pub open spec fn as_messages(arrivals: Seq<Arrival>) -> Seq<MsgView> {
    Seq::new(
        arrivals.len(),
        |i: int| MsgView { topic: arrivals[i].subject, payload: arrivals[i].data },
    )
}

/// Without a transform stage, what ingress receives is what egress
/// publishes: each message that arrives, with a payload of whatever
/// length, is published under the topic it arrived under with the
/// payload it arrived with, byte for byte, in the order of arrival; and
/// the sample that goes to the statistics for it is its payload's
/// length.
pub proof fn relays_unchanged(arrivals: Seq<Arrival>)
    ensures
        wiring_for(false).transform is None,
        published_over(direct_events(arrivals)) == as_messages(arrivals),
        forall|i: int|
            0 <= i < arrivals.len() ==> (#[trigger] delivered(
                arrivals[i].subject,
                arrivals[i].data,
            )).sample == arrivals[i].data.len(),
    decreases arrivals.len(),
{
    if arrivals.len() > 0 {
        relays_unchanged(arrivals.drop_last());
        assert(direct_events(arrivals).drop_last() =~= direct_events(arrivals.drop_last()));
        assert(as_messages(arrivals.drop_last()).push(as_messages(arrivals).last()) =~= as_messages(
            arrivals,
        ));
    } else {
        assert(as_messages(arrivals) =~= Seq::<MsgView>::empty());
    }
}

/// A publish that fails with an aborted connection fails the whole
/// run: egress ends with that failure, so the run does not succeed,
/// whatever the other stages ended with; and where ingress and the
/// statistics ended well, the failure of egress is the run's own.
pub proof fn abort_fails_the_run(
    detail: Seq<char>,
    ingress: Result<(), StageErrorView>,
    stats: Result<(), StageErrorView>,
    transform: Option<Result<(), StageErrorView>>,
)
    ensures
        write_step(
            WriteEventView::Published(
                Err(PublishFailureView { class: FailureClass::ConnectionAborted, detail }),
            ),
        ) == WriteActionView::Finish(failed(Fault::Publish, detail)),
        overall(ingress, stats, failed(Fault::Publish, detail), transform) is Err,
        ingress is Ok && stats is Ok ==> overall(
            ingress,
            stats,
            failed(Fault::Publish, detail),
            transform,
        ) == failed(Fault::Publish, detail),
{
}

} // verus!
