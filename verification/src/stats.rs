//! Throughput statistics: the running total, and the text it is shown as.

use crate::stage::{ending_view, StageError, StageErrorView};
use crate::text::{decimal, push_decimal, push_two_digits, two_digits};
use crate::timer::{nanos_between, now, seconds_since, Timer, TimerView};
use std::time::Instant;
use vstd::prelude::*;
use vstd::string::*;

verus! {

/// Bytes in a kilobyte; a megabyte and a gigabyte are its square and cube.
pub const KILO: usize = 1024;

/// Bytes in a megabyte.
pub const MEGA: usize = 1_048_576;

/// Bytes in a gigabyte.
pub const GIGA: usize = 1_073_741_824;

/// A number of seconds as `H:MM:SS`: hours without bound or padding,
/// minutes and seconds in two digits each.
pub open spec fn clock_text(secs: nat) -> Seq<char> {
    decimal(secs / 3600) + seq![':'] + two_digits((secs % 3600) / 60) + seq![':'] + two_digits(
        secs % 60,
    )
}

/// A whole count followed by a blank and the unit's name.
pub open spec fn scaled(count: nat, unit: Seq<char>) -> Seq<char> {
    decimal(count) + seq![' '] + unit
}

/// A byte count in the largest of GB, MB and KB that it fills at least
/// once, rounded down to a whole number; in B below one kilobyte.
pub open spec fn hf_bytes_text(bytes: nat) -> Seq<char> {
    if bytes / (GIGA as nat) > 0 {
        scaled(bytes / (GIGA as nat), seq!['G', 'B'])
    } else if bytes / (MEGA as nat) > 0 {
        scaled(bytes / (MEGA as nat), seq!['M', 'B'])
    } else if bytes / (KILO as nat) > 0 {
        scaled(bytes / (KILO as nat), seq!['K', 'B'])
    } else {
        scaled(bytes, seq!['B'])
    }
}

/// Adds `as_clock` to `u64`: a number of seconds rendered as a clock.
pub trait Clock {
    fn as_clock(&self) -> String;
}

impl Clock for u64 {
    /// Renders the seconds as `H:MM:SS`.
    fn as_clock(&self) -> (text: String)
        ensures
            text@ == clock_text(*self as nat),
    {
        let hours: u64 = *self / 3600;
        let left: u64 = *self % 3600;
        let min: u64 = left / 60;
        let secs: u64 = left % 60;
        proof {
            reveal_strlit(":");
            assert(*self as nat % 60 == (*self as nat % 3600) % 60) by (nonlinear_arith);
        }
        let mut text = String::new();
        push_decimal(&mut text, hours as u128);
        text.append(":");
        push_two_digits(&mut text, min as u8);
        text.append(":");
        push_two_digits(&mut text, secs as u8);
        assert(text@ =~= clock_text(*self as nat));
        text
    }
}

/// Adds `as_hf_bytes` to `usize`: a byte count in a unit fit for reading.
pub trait HumanFriendlyBytes {
    fn as_hf_bytes(&self) -> String;
}

impl HumanFriendlyBytes for usize {
    /// Renders the byte count in GB, MB, KB or B.
    fn as_hf_bytes(&self) -> (text: String)
        ensures
            text@ == hf_bytes_text(*self as nat),
    {
        let v: usize = *self;
        proof {
            reveal_strlit(" GB");
            reveal_strlit(" MB");
            reveal_strlit(" KB");
            reveal_strlit(" B");
        }
        let mut text = String::new();
        if v / GIGA > 0 {
            push_decimal(&mut text, (v / GIGA) as u128);
            text.append(" GB");
        } else if v / MEGA > 0 {
            push_decimal(&mut text, (v / MEGA) as u128);
            text.append(" MB");
        } else if v / KILO > 0 {
            push_decimal(&mut text, (v / KILO) as u128);
            text.append(" KB");
        } else {
            push_decimal(&mut text, v as u128);
            text.append(" B");
        }
        assert(text@ =~= hf_bytes_text(*self as nat));
        text
    }
}

/// The sample that ends the stream of samples.
pub const SENTINEL: usize = 0;

/// What the collector is, apart from the instants it measures from.
pub struct CollectorView {
    pub total_bytes: nat,
    pub timer: TimerView,
    pub finished: bool,
}

/// One sample as the collector meets it: the bytes it counts, and the
/// time since the sample before it, in nanoseconds.
pub struct Sample {
    pub bytes: nat,
    pub delta: nat,
}

impl CollectorView {
    /// Whether a sample that comes `delta` after the last one has the
    /// progress rendered: the collector is at work and not silent, and
    /// its timer is ready once that time has passed.
    pub open spec fn renders(self, delta: nat, silent: bool) -> bool {
        !self.finished && !silent && self.timer.elapse(delta).ready
    }

    /// The collector after a sample of `bytes` that comes `delta` after
    /// the last one. The sample is added to the total and the timer
    /// ticks; a rendering takes the timer's flag down; a sample of zero
    /// ends the collection. A collector that has ended takes nothing in.
    pub open spec fn record(self, bytes: nat, delta: nat, silent: bool) -> CollectorView {
        if self.finished {
            self
        } else {
            CollectorView {
                total_bytes: self.total_bytes + bytes,
                timer: if self.renders(delta, silent) {
                    self.timer.elapse(delta).consume()
                } else {
                    self.timer.elapse(delta)
                },
                finished: bytes == SENTINEL,
            }
        }
    }

    /// The collector after the samples in `samples`, in their order.
    pub open spec fn record_all(self, samples: Seq<Sample>, silent: bool) -> CollectorView
        decreases samples.len(),
    {
        if samples.len() == 0 {
            self
        } else {
            self.record_all(samples.drop_last(), silent).record(
                samples.last().bytes,
                samples.last().delta,
                silent,
            )
        }
    }
}

/// The bytes of the samples in `samples`, added up.
pub open spec fn sum_of(samples: Seq<Sample>) -> nat
    decreases samples.len(),
{
    if samples.len() == 0 {
        0
    } else {
        sum_of(samples.drop_last()) + samples.last().bytes
    }
}

/// The total as it is rendered: in a unit fit for reading, and a blank
/// after it.
pub open spec fn total_label(total_bytes: nat) -> Seq<char> {
    hf_bytes_text(total_bytes) + seq![' ']
}

/// Aggregates the sizes of the messages received, and says when to
/// show the progress.
pub struct Collector {
    /// The bytes counted so far.
    pub total_bytes: usize,
    /// Throttles the rendering.
    pub timer: Timer,
    /// When the collection began.
    pub start: Instant,
    /// Whether the sentinel has come.
    pub finished: bool,
}

impl View for Collector {
    type V = CollectorView;

    open spec fn view(&self) -> CollectorView {
        CollectorView {
            total_bytes: self.total_bytes as nat,
            timer: self.timer@,
            finished: self.finished,
        }
    }
}

/// What the collector says of one sample.
#[derive(Debug, Clone, Copy, PartialEq, Eq, Structural)]
pub struct Turn {
    /// The progress is to be rendered now.
    pub render: bool,
    /// The collection is over: this sample was the sentinel, or the
    /// sentinel had come before.
    pub done: bool,
    /// The progress line is to be closed with a line break: the
    /// collection ended with this sample, and the collector is not
    /// silent.
    pub end_line: bool,
}

/// The parts of one rendering of the progress that are text.
#[derive(Debug)]
pub struct Progress {
    /// The total, in a unit fit for reading, with a blank after it.
    pub bytes: String,
    /// The whole seconds since the collection began.
    pub elapsed_secs: u64,
    /// Those seconds as a clock.
    pub elapsed: String,
}

/// What became of one sample.
#[derive(Debug)]
pub struct Tally {
    /// What to render, where the progress is to be rendered now.
    pub progress: Option<Progress>,
    /// The collection is over.
    pub done: bool,
    /// The progress line is to be closed with a line break.
    pub end_line: bool,
}

/// What the collector says of a sample of `bytes` that comes `delta`
/// after the last one.
pub open spec fn turn_of(collector: CollectorView, bytes: nat, delta: nat, silent: bool) -> Turn {
    Turn {
        render: collector.renders(delta, silent),
        done: collector.finished || bytes == SENTINEL,
        end_line: !collector.finished && bytes == SENTINEL && !silent,
    }
}

impl Collector {
    /// A collector that begins now, with nothing counted.
    pub fn new() -> (collector: Self)
        ensures
            collector@ == (CollectorView {
                total_bytes: 0,
                timer: TimerView::fresh(),
                finished: false,
            }),
    {
        let start = now();
        Collector { total_bytes: 0, timer: Timer::new(), start, finished: false }
    }

    /// Takes in a sample of `sample` bytes at the present instant: as
    /// `count` does, with the time that the clock says has passed since
    /// the last sample; and where the progress is to be rendered, with
    /// the texts of `progress` for the seconds that the clock says have
    /// passed since the collection began.
    pub fn record(&mut self, sample: usize, silent: bool) -> (tally: Tally)
        requires
            !old(self).finished ==> old(self).total_bytes + sample <= usize::MAX,
        ensures
            final(self)@ == old(self)@.record(sample as nat, final(self)@.timer.delta, silent),
            final(self).start == old(self).start,
            (tally.progress is Some) == old(self)@.renders(final(self)@.timer.delta, silent),
            tally.done == turn_of(old(self)@, sample as nat, final(self)@.timer.delta, silent).done,
            tally.end_line == turn_of(
                old(self)@,
                sample as nat,
                final(self)@.timer.delta,
                silent,
            ).end_line,
            tally.progress matches Some(progress) ==> {
                &&& progress.bytes@ == total_label(final(self)@.total_bytes)
                &&& progress.elapsed@ == clock_text(progress.elapsed_secs as nat)
            },
    {
        if self.finished {
            return Tally { progress: None, done: true, end_line: false };
        }
        let at = now();
        let delta: u128 = nanos_between(&at, &self.timer.last);
        let turn = self.count(sample, at, delta, silent);
        let progress = if turn.render {
            Some(self.progress(seconds_since(&self.start)))
        } else {
            None
        };
        Tally { progress, done: turn.done, end_line: turn.end_line }
    }

    /// Takes in a sample of `sample` bytes that comes at `at`, `delta`
    /// nanoseconds after the last one.
    pub fn count(&mut self, sample: usize, at: Instant, delta: u128, silent: bool) -> (turn: Turn)
        requires
            !old(self).finished ==> old(self).total_bytes + sample <= usize::MAX,
        ensures
            final(self)@ == old(self)@.record(sample as nat, delta as nat, silent),
            final(self).start == old(self).start,
            !old(self).finished ==> final(self).timer.last == at,
            old(self).finished ==> final(self).timer.last == old(self).timer.last,
            turn == turn_of(old(self)@, sample as nat, delta as nat, silent),
    {
        if self.finished {
            return Turn { render: false, done: true, end_line: false };
        }
        self.total_bytes = self.total_bytes + sample;
        self.timer.tick_at(at, delta);
        let render = !silent && self.timer.ready;
        if render {
            self.timer.ready = false;
        }
        let done = sample == SENTINEL;
        self.finished = done;
        Turn { render, done, end_line: done && !silent }
    }

    /// The texts of a rendering made `elapsed_secs` whole seconds after
    /// the collection began.
    pub fn progress(&self, elapsed_secs: u64) -> (progress: Progress)
        ensures
            progress.bytes@ == total_label(self@.total_bytes),
            progress.elapsed_secs == elapsed_secs,
            progress.elapsed@ == clock_text(elapsed_secs as nat),
    {
        let mut bytes = self.total_bytes.as_hf_bytes();
        proof {
            reveal_strlit(" ");
        }
        bytes.append(" ");
        assert(bytes@ =~= total_label(self@.total_bytes));
        Progress { bytes, elapsed_secs, elapsed: elapsed_secs.as_clock() }
    }
}

/// What happened at the statistics stage since its last step.
#[derive(Debug, Clone, Copy, PartialEq, Eq, Structural)]
pub enum StatsEvent {
    /// The stage was started.
    Started,
    /// A sample was taken in, and the collector said this of it.
    Recorded(Turn),
}

/// What the statistics stage does next.
#[derive(Debug)]
pub enum StatsAction {
    /// Wait for the next sample on the queue, and have the collector
    /// take it in.
    Receive,
    /// End the stage with this result.
    Finish(Result<(), StageError>),
}

/// A statistics action, a failure by its view.
pub enum StatsActionView {
    Receive,
    Finish(Result<(), StageErrorView>),
}

impl View for StatsAction {
    type V = StatsActionView;

    open spec fn view(&self) -> StatsActionView {
        match self {
            StatsAction::Receive => StatsActionView::Receive,
            StatsAction::Finish(ending) => StatsActionView::Finish(ending_view(*ending)),
        }
    }
}

/// What the statistics stage does after `event`. It takes samples in
/// one by one in the order of the queue, and ends well with the sample
/// that ends the collection: it waits for nothing after the sentinel.
pub open spec fn stats_step(event: StatsEvent) -> StatsActionView {
    match event {
        StatsEvent::Started => StatsActionView::Receive,
        StatsEvent::Recorded(turn) => if turn.done {
            StatsActionView::Finish(Ok(()))
        } else {
            StatsActionView::Receive
        },
    }
}

/// The next step of the statistics stage after `event`.
pub fn step(event: StatsEvent) -> (action: StatsAction)
    ensures
        action@ == stats_step(event),
{
    match event {
        StatsEvent::Started => StatsAction::Receive,
        StatsEvent::Recorded(turn) => {
            if turn.done {
                StatsAction::Finish(Ok(()))
            } else {
                StatsAction::Receive
            }
        },
    }
}

impl CollectorView {
    /// The collector after the first `count` of `samples`.
    pub open spec fn after(self, samples: Seq<Sample>, count: int, silent: bool) -> CollectorView {
        self.record_all(samples.take(count), silent)
    }

    /// What the collector says of the sample at `index` of `samples`,
    /// having taken in those before it.
    pub open spec fn turn_at(self, samples: Seq<Sample>, index: int, silent: bool) -> Turn {
        turn_of(
            self.after(samples, index, silent),
            samples[index].bytes,
            samples[index].delta,
            silent,
        )
    }

    /// Whether the stage, begun on this collector with `samples` on its
    /// queue, comes to receive the sample at `index`: it does where its
    /// step after every sample before that one was to receive the
    /// next.
    pub open spec fn receives(self, samples: Seq<Sample>, index: int, silent: bool) -> bool {
        forall|earlier: int|
            0 <= earlier < index ==> stats_step(
                StatsEvent::Recorded(#[trigger] self.turn_at(samples, earlier, silent)),
            ) == StatsActionView::Receive
    }
}

/// A sample of zero ends the collection and adds nothing; where the
/// collector is not silent, the line is closed.
pub proof fn sentinel_ends_collection(collector: CollectorView, delta: nat, silent: bool)
    requires
        !collector.finished,
    ensures
        collector.record(SENTINEL as nat, delta, silent).finished,
        collector.record(SENTINEL as nat, delta, silent).total_bytes == collector.total_bytes,
        turn_of(collector, SENTINEL as nat, delta, silent).done,
        turn_of(collector, SENTINEL as nat, delta, silent).end_line == !silent,
{
}

/// A collector that has ended stays as it is, whatever samples follow,
/// and renders nothing.
pub proof fn nothing_counts_after_the_end(
    collector: CollectorView,
    samples: Seq<Sample>,
    silent: bool,
)
    requires
        collector.finished,
    ensures
        collector.record_all(samples, silent) == collector,
        forall|bytes: nat, delta: nat| !(#[trigger] turn_of(collector, bytes, delta, silent)).render,
    decreases samples.len(),
{
    if samples.len() > 0 {
        nothing_counts_after_the_end(collector, samples.drop_last(), silent);
    }
}

/// While no sample is zero, the collector stays at work and its total
/// grows by the sum of the samples.
pub proof fn totals_add_up(collector: CollectorView, samples: Seq<Sample>, silent: bool)
    requires
        !collector.finished,
        forall|i: int| 0 <= i < samples.len() ==> (#[trigger] samples[i]).bytes != SENTINEL,
    ensures
        !collector.record_all(samples, silent).finished,
        collector.record_all(samples, silent).total_bytes == collector.total_bytes + sum_of(
            samples,
        ),
    decreases samples.len(),
{
    if samples.len() > 0 {
        totals_add_up(collector, samples.drop_last(), silent);
    }
}

/// Of a stream of samples, the collector aggregates those before the
/// first zero and none after it: its total is the sum of the samples
/// `before`, which hold no zero, whatever comes `after` the sentinel.
pub proof fn aggregates_up_to_sentinel(
    collector: CollectorView,
    before: Seq<Sample>,
    sentinel: Sample,
    after: Seq<Sample>,
    silent: bool,
)
    requires
        !collector.finished,
        forall|i: int| 0 <= i < before.len() ==> (#[trigger] before[i]).bytes != SENTINEL,
        sentinel.bytes == SENTINEL,
    ensures
        collector.record_all(before.push(sentinel) + after, silent).finished,
        collector.record_all(before.push(sentinel) + after, silent).total_bytes
            == collector.total_bytes + sum_of(before),
    decreases after.len(),
{
    let ended = collector.record_all(before.push(sentinel), silent);
    assert(before.push(sentinel).drop_last() =~= before);
    totals_add_up(collector, before, silent);
    assert(ended.finished && ended.total_bytes == collector.total_bytes + sum_of(before));
    if after.len() == 0 {
        assert(before.push(sentinel) + after =~= before.push(sentinel));
    } else {
        aggregates_up_to_sentinel(collector, before, sentinel, after.drop_last(), silent);
        assert((before.push(sentinel) + after).drop_last() =~= before.push(sentinel)
            + after.drop_last());
    }
}

/// The statistics stage on a queue whose first zero is the sample at
/// `sentinel`. The stage receives that sample and every one before it,
/// ends well on it, and receives none after it. The running total
/// after each sample it receives is the sum of the samples so far, so
/// the last total is the sum of the samples before the sentinel, and
/// what is queued behind the sentinel changes nothing and renders
/// nothing. The line is closed at the sentinel and at no other sample,
/// and there only where the collector is not silent.
pub proof fn ends_at_the_sentinel(
    collector: CollectorView,
    samples: Seq<Sample>,
    sentinel: int,
    silent: bool,
)
    requires
        !collector.finished,
        0 <= sentinel < samples.len(),
        samples[sentinel].bytes == SENTINEL,
        forall|i: int| 0 <= i < sentinel ==> (#[trigger] samples[i]).bytes != SENTINEL,
    ensures
        forall|i: int| 0 <= i <= sentinel ==> collector.receives(samples, i, silent),
        forall|i: int| sentinel < i < samples.len() ==> !collector.receives(samples, i, silent),
        stats_step(StatsEvent::Recorded(collector.turn_at(samples, sentinel, silent)))
            == StatsActionView::Finish(Ok(())),
        forall|i: int|
            0 <= i < samples.len() ==> ((#[trigger] collector.turn_at(samples, i, silent)).done
                <==> sentinel <= i),
        forall|i: int|
            0 <= i < samples.len() ==> ((#[trigger] collector.turn_at(samples, i, silent)).end_line
                <==> (i == sentinel && !silent)),
        forall|i: int|
            sentinel < i < samples.len() ==> !(#[trigger] collector.turn_at(
                samples,
                i,
                silent,
            )).render,
        forall|i: int|
            0 <= i <= sentinel ==> (#[trigger] collector.after(samples, i + 1, silent)).total_bytes
                == collector.total_bytes + sum_of(samples.take(i + 1)),
        forall|i: int|
            sentinel < i <= samples.len() ==> #[trigger] collector.after(samples, i, silent)
                == collector.after(samples, sentinel + 1, silent),
        collector.after(samples, sentinel + 1, silent).total_bytes == collector.total_bytes
            + sum_of(samples.take(sentinel)),
{
    assert forall|i: int| 0 <= i <= sentinel implies {
        &&& !(#[trigger] collector.after(samples, i, silent)).finished
        &&& collector.after(samples, i, silent).total_bytes == collector.total_bytes + sum_of(
            samples.take(i),
        )
    } by {
        totals_add_up(collector, samples.take(i), silent);
    }
    let ended = collector.after(samples, sentinel + 1, silent);
    assert(samples.take(sentinel + 1).drop_last() =~= samples.take(sentinel));
    assert(ended == collector.after(samples, sentinel, silent).record(
        samples[sentinel].bytes,
        samples[sentinel].delta,
        silent,
    ));
    assert(sum_of(samples.take(sentinel + 1)) == sum_of(samples.take(sentinel)));
    assert forall|i: int| sentinel < i <= samples.len() implies #[trigger] collector.after(
        samples,
        i,
        silent,
    ) == ended by {
        let behind = samples.subrange(sentinel + 1, i);
        assert(samples.take(i) =~= samples.take(sentinel + 1) + behind);
        unfolds_in_two(collector, samples.take(sentinel + 1), behind, silent);
        nothing_counts_after_the_end(ended, behind, silent);
    }
    assert forall|i: int| 0 <= i <= sentinel implies (#[trigger] collector.after(
        samples,
        i + 1,
        silent,
    )).total_bytes == collector.total_bytes + sum_of(samples.take(i + 1)) by {
        if i < sentinel {
        }
    }
    assert forall|i: int| 0 <= i <= sentinel implies collector.receives(samples, i, silent) by {
        assert forall|earlier: int| 0 <= earlier < i implies stats_step(
            StatsEvent::Recorded(#[trigger] collector.turn_at(samples, earlier, silent)),
        ) == StatsActionView::Receive by {
            assert(!collector.after(samples, earlier, silent).finished);
        }
    }
    assert(collector.turn_at(samples, sentinel, silent).done);
    assert forall|i: int| sentinel < i < samples.len() implies !collector.receives(
        samples,
        i,
        silent,
    ) by {
        assert(stats_step(StatsEvent::Recorded(collector.turn_at(samples, sentinel, silent)))
            != StatsActionView::Receive);
    }
    nothing_counts_after_the_end(ended, Seq::empty(), silent);
}

/// Taking in one run of samples and then another is taking in the two
/// runs joined.
pub proof fn unfolds_in_two(
    collector: CollectorView,
    first: Seq<Sample>,
    second: Seq<Sample>,
    silent: bool,
)
    ensures
        collector.record_all(first + second, silent) == collector.record_all(
            first,
            silent,
        ).record_all(second, silent),
    decreases second.len(),
{
    if second.len() == 0 {
        assert(first + second =~= first);
    } else {
        unfolds_in_two(collector, first, second.drop_last(), silent);
        assert((first + second).drop_last() =~= first + second.drop_last());
    }
}

} // verus!
