//! The transform stage: the harness a script runs in, what its answer
//! means for a message, and the order of the stage's steps.

use crate::msg::{Msg, MsgView};
use crate::stage::{ending_view, failed, reply_view, Fault, StageError, StageErrorView};
use crate::text::{decimal, push_decimal};
use vstd::prelude::*;
use vstd::string::*;
use vstd::utf8::*;

verus! {

/// The harness up to the script: it brings in what the default entry
/// point needs.
pub const HARNESS_HEAD: &'static str =
    "\n            import { Buffer } from 'http://deno.land/x/node_buffer/index.ts';\n\n            ";

/// The harness after the script. Where the script declares a function
/// `recv`, it publishes that as the entry point. Where it declares
/// none, or a `recv` that is no function, it publishes one that hands
/// every message on under its topic with its payload as text. It reads
/// `recv` only once it has found it to be a function, so a script
/// without a `recv` loads all the same.
pub const HARNESS_TAIL: &'static str =
    "; // User code\n\n            if (typeof recv === 'function') {\n                globalThis.recv = recv;\n            } else {\n                globalThis.recv = function recv(topic, uint8array) {\n                    return {topic, msg: Buffer.from(uint8array).toString() };\n                };\n            }\n        ";

/// The module that the engine runs for `script`: the script between
/// the two parts of the harness.
pub open spec fn harness_text(script: Seq<char>) -> Seq<char> {
    HARNESS_HEAD@ + script + HARNESS_TAIL@
}

/// Embeds `script` in the harness.
pub fn harness(script: &str) -> (code: String)
    ensures
        code@ == harness_text(script@),
{
    let mut code = String::from_str(HARNESS_HEAD);
    code.append(script);
    code.append(HARNESS_TAIL);
    code
}

/// Where the harness is staged for the engine, for a run that began
/// `micros` microseconds after the epoch.
pub open spec fn staging_path_text(micros: nat) -> Seq<char> {
    "/tmp/"@ + decimal(micros) + ".deno"@
}

/// The path of the file that the harness is staged in.
pub fn staging_path(micros: u128) -> (path: String)
    ensures
        path@ == staging_path_text(micros as nat),
{
    let mut path = String::from_str("/tmp/");
    push_decimal(&mut path, micros);
    path.append(".deno");
    path
}

/// What one call of the script's entry point gave back, as far as the
/// stage reads it.
#[derive(Debug)]
pub enum ScriptValue {
    /// The call raised an exception, with this text.
    Raised(String),
    /// The call gave no value back.
    Nothing,
    /// A boolean.
    Boolean(bool),
    /// An object. Each of its fields `topic` and `msg` is here with its
    /// text where it holds text, and absent where it is missing or holds
    /// anything else.
    Object { topic: Option<String>, msg: Option<String> },
    /// Any other value: a number, a text, `null`, `undefined`.
    Other,
}

/// The stage's decision on one message.
#[derive(Debug)]
pub enum ScriptResult {
    /// The message goes on as it came.
    Forward,
    /// A message with this topic and this payload goes on in its place.
    Rewrite(String, Vec<u8>),
    /// Nothing goes on.
    Drop,
}

/// A script's answer, its texts by their characters.
pub enum ScriptValueView {
    Raised(Seq<char>),
    Nothing,
    Boolean(bool),
    Object { topic: Option<Seq<char>>, msg: Option<Seq<char>> },
    Other,
}

/// A decision, its topic by its characters and its payload by its bytes.
pub enum ScriptResultView {
    Forward,
    Rewrite(Seq<char>, Seq<u8>),
    Drop,
}

/// A field of an object, by the characters of its text.
pub open spec fn field_view(field: Option<String>) -> Option<Seq<char>> {
    match field {
        Some(text) => Some(text@),
        None => None,
    }
}

impl View for ScriptValue {
    type V = ScriptValueView;

    open spec fn view(&self) -> ScriptValueView {
        match self {
            ScriptValue::Raised(said) => ScriptValueView::Raised(said@),
            ScriptValue::Nothing => ScriptValueView::Nothing,
            ScriptValue::Boolean(truth) => ScriptValueView::Boolean(*truth),
            ScriptValue::Object { topic, msg } => ScriptValueView::Object {
                topic: field_view(*topic),
                msg: field_view(*msg),
            },
            ScriptValue::Other => ScriptValueView::Other,
        }
    }
}

impl View for ScriptResult {
    type V = ScriptResultView;

    open spec fn view(&self) -> ScriptResultView {
        match self {
            ScriptResult::Forward => ScriptResultView::Forward,
            ScriptResult::Rewrite(topic, payload) => ScriptResultView::Rewrite(topic@, payload@),
            ScriptResult::Drop => ScriptResultView::Drop,
        }
    }
}

impl ScriptValueView {
    /// What the answer decides. `true` forwards; an object whose `topic`
    /// and `msg` both hold text rewrites, the payload being the UTF-8
    /// encoding of `msg`; everything else drops: an exception, no value,
    /// `false`, an object short of either text, any other value.
    pub open spec fn decision(self) -> ScriptResultView {
        match self {
            ScriptValueView::Boolean(true) => ScriptResultView::Forward,
            ScriptValueView::Object { topic: Some(topic), msg: Some(msg) } => ScriptResultView::Rewrite(
                topic,
                encode_utf8(msg),
            ),
            _ => ScriptResultView::Drop,
        }
    }

    /// Whether the answer is one that a script gives by returning a
    /// falsy value: `false`, or one of the values that are no boolean
    /// and no object.
    pub open spec fn falsy(self) -> bool {
        self == ScriptValueView::Boolean(false) || self is Other
    }
}

impl ScriptResultView {
    /// The message that goes on to egress for `msg` under this
    /// decision, if any.
    pub open spec fn applied(self, msg: MsgView) -> Option<MsgView> {
        match self {
            ScriptResultView::Forward => Some(msg),
            ScriptResultView::Rewrite(topic, payload) => Some(MsgView { topic, payload }),
            ScriptResultView::Drop => None,
        }
    }
}

/// A message that may be there, by its view.
pub open spec fn passed_view(passed: Option<Msg>) -> Option<MsgView> {
    match passed {
        Some(msg) => Some(msg@),
        None => None,
    }
}

impl ScriptValue {
    /// What this answer decides.
    pub fn interpret(self) -> (result: ScriptResult)
        ensures
            result@ == self@.decision(),
    {
        match self {
            ScriptValue::Boolean(true) => ScriptResult::Forward,
            ScriptValue::Object { topic: Some(topic), msg: Some(msg) } => {
                let payload = msg.as_str().as_bytes_vec();
                ScriptResult::Rewrite(topic, payload)
            },
            _ => ScriptResult::Drop,
        }
    }
}

impl ScriptResult {
    /// Carries the decision out on `msg`: the message that goes on, if
    /// any.
    pub fn apply(self, msg: Msg) -> (passed: Option<Msg>)
        ensures
            passed_view(passed) == self@.applied(msg@),
    {
        match self {
            ScriptResult::Forward => Some(msg),
            ScriptResult::Rewrite(topic, payload) => Some(Msg::new(payload, topic)),
            ScriptResult::Drop => None,
        }
    }
}

/// What happened at the transform stage since its last step.
#[derive(Debug)]
pub enum ProcessEvent {
    /// The stage was started.
    Started,
    /// The engine answered the attempt to start it on the harness.
    Booted(Result<(), String>),
    /// The shutdown flag was read, with this value.
    Observed(bool),
    /// The wait on the queue ended: with a message, or with what the
    /// queue said in failing.
    Received(Result<Msg, String>),
    /// The entry point was called on this message and answered so.
    Returned(Msg, ScriptValue),
    /// The last message sent was taken by the queue to egress.
    Sent,
}

/// What the transform stage does next.
#[derive(Debug)]
pub enum ProcessAction {
    /// Start the engine on this module, the script in its harness.
    Boot(String),
    /// Read the shutdown flag.
    Observe,
    /// Wait for the next message on the queue.
    Receive,
    /// Call the entry point on this message.
    Invoke(Msg),
    /// Send this message on to egress.
    Send(Msg),
    /// End the stage with this result.
    Finish(Result<(), StageError>),
}

/// A transform event, by the views of what it holds.
pub enum ProcessEventView {
    Started,
    Booted(Result<(), Seq<char>>),
    Observed(bool),
    Received(Result<MsgView, Seq<char>>),
    Returned(MsgView, ScriptValueView),
    Sent,
}

/// A transform action, by the views of what it holds.
pub enum ProcessActionView {
    Boot(Seq<char>),
    Observe,
    Receive,
    Invoke(MsgView),
    Send(MsgView),
    Finish(Result<(), StageErrorView>),
}

/// What a wait on the queue ended with, by the views of both sides.
pub open spec fn received_view(received: Result<Msg, String>) -> Result<MsgView, Seq<char>> {
    match received {
        Ok(msg) => Ok(msg@),
        Err(said) => Err(said@),
    }
}

impl View for ProcessEvent {
    type V = ProcessEventView;

    open spec fn view(&self) -> ProcessEventView {
        match self {
            ProcessEvent::Started => ProcessEventView::Started,
            ProcessEvent::Booted(reply) => ProcessEventView::Booted(reply_view(*reply)),
            ProcessEvent::Observed(shutdown) => ProcessEventView::Observed(*shutdown),
            ProcessEvent::Received(received) => ProcessEventView::Received(
                received_view(*received),
            ),
            ProcessEvent::Returned(msg, value) => ProcessEventView::Returned(msg@, value@),
            ProcessEvent::Sent => ProcessEventView::Sent,
        }
    }
}

impl View for ProcessAction {
    type V = ProcessActionView;

    open spec fn view(&self) -> ProcessActionView {
        match self {
            ProcessAction::Boot(code) => ProcessActionView::Boot(code@),
            ProcessAction::Observe => ProcessActionView::Observe,
            ProcessAction::Receive => ProcessActionView::Receive,
            ProcessAction::Invoke(msg) => ProcessActionView::Invoke(msg@),
            ProcessAction::Send(msg) => ProcessActionView::Send(msg@),
            ProcessAction::Finish(ending) => ProcessActionView::Finish(ending_view(*ending)),
        }
    }
}

/// What the stage does once the entry point has answered `value` for
/// `msg`: it sends on what the decision leaves of the message, or goes
/// straight to the next look at the flag.
pub open spec fn after_answer(msg: MsgView, value: ScriptValueView) -> ProcessActionView {
    match value.decision().applied(msg) {
        Some(passed) => ProcessActionView::Send(passed),
        None => ProcessActionView::Observe,
    }
}

/// What the transform stage does after `event`, for the script
/// `script`. It starts the engine on the script in its harness, then in
/// turn looks at the shutdown flag, waits for a message, calls the
/// entry point on it and carries the decision out, one message at a
/// time in the order of the queue. A wait that fails and an answer that
/// drops cost one message at most. The stage ends when it sees the flag
/// raised and when the engine does not start.
pub open spec fn process_step(script: Seq<char>, event: ProcessEventView) -> ProcessActionView {
    match event {
        ProcessEventView::Started => ProcessActionView::Boot(harness_text(script)),
        ProcessEventView::Booted(Ok(())) => ProcessActionView::Observe,
        ProcessEventView::Booted(Err(said)) => ProcessActionView::Finish(
            failed(Fault::Engine, said),
        ),
        ProcessEventView::Observed(shutdown) => if shutdown {
            ProcessActionView::Finish(Ok(()))
        } else {
            ProcessActionView::Receive
        },
        ProcessEventView::Received(Ok(msg)) => ProcessActionView::Invoke(msg),
        ProcessEventView::Received(Err(_)) => ProcessActionView::Observe,
        ProcessEventView::Returned(msg, value) => after_answer(msg, value),
        ProcessEventView::Sent => ProcessActionView::Observe,
    }
}

/// The next step of the transform stage after `event`, for the script
/// `script`.
pub fn step(script: &str, event: ProcessEvent) -> (action: ProcessAction)
    ensures
        action@ == process_step(script@, event@),
{
    match event {
        ProcessEvent::Started => ProcessAction::Boot(harness(script)),
        ProcessEvent::Booted(Ok(())) => ProcessAction::Observe,
        ProcessEvent::Booted(Err(said)) => ProcessAction::Finish(
            Err(StageError::new(Fault::Engine, said)),
        ),
        ProcessEvent::Observed(shutdown) => {
            if shutdown {
                ProcessAction::Finish(Ok(()))
            } else {
                ProcessAction::Receive
            }
        },
        ProcessEvent::Received(Ok(msg)) => ProcessAction::Invoke(msg),
        ProcessEvent::Received(Err(_)) => ProcessAction::Observe,
        ProcessEvent::Returned(msg, value) => match value.interpret().apply(msg) {
            Some(passed) => ProcessAction::Send(passed),
            None => ProcessAction::Observe,
        },
        ProcessEvent::Sent => ProcessAction::Observe,
    }
}

/// What the stage sends on to egress over the events in `events`, in
/// the order in which it sends.
pub open spec fn sent_over(script: Seq<char>, events: Seq<ProcessEventView>) -> Seq<MsgView>
    decreases events.len(),
{
    if events.len() == 0 {
        Seq::empty()
    } else {
        let earlier = sent_over(script, events.drop_last());
        match process_step(script, events.last()) {
            ProcessActionView::Send(passed) => earlier.push(passed),
            _ => earlier,
        }
    }
}

/// The events of a run in which the entry point is called on each of
/// `msgs` in turn and answers `answer` of it.
pub open spec fn answered(
    msgs: Seq<MsgView>,
    answer: spec_fn(MsgView) -> ScriptValueView,
) -> Seq<ProcessEventView> {
    Seq::new(msgs.len(), |i: int| ProcessEventView::Returned(msgs[i], answer(msgs[i])))
}

/// With an entry point that answers `true` to every message, what goes
/// on to egress is what came in: every message, unchanged, in order.
pub proof fn true_forwards_unchanged(script: Seq<char>, msgs: Seq<MsgView>)
    ensures
        sent_over(script, answered(msgs, |msg: MsgView| ScriptValueView::Boolean(true))) == msgs,
    decreases msgs.len(),
{
    let answer = |msg: MsgView| ScriptValueView::Boolean(true);
    if msgs.len() > 0 {
        true_forwards_unchanged(script, msgs.drop_last());
        assert(answered(msgs, answer).drop_last() =~= answered(msgs.drop_last(), answer));
        assert(msgs.drop_last().push(msgs.last()) =~= msgs);
    }
}

/// With an entry point that answers every message with a falsy value,
/// or with none, or by raising an exception, nothing goes on to egress,
/// whatever comes in.
pub proof fn falsy_drops(
    script: Seq<char>,
    msgs: Seq<MsgView>,
    answer: spec_fn(MsgView) -> ScriptValueView,
)
    requires
        forall|msg: MsgView|
            (#[trigger] answer(msg)).falsy() || answer(msg) is Nothing || answer(msg) is Raised,
    ensures
        sent_over(script, answered(msgs, answer)) == Seq::<MsgView>::empty(),
    decreases msgs.len(),
{
    if msgs.len() > 0 {
        falsy_drops(script, msgs.drop_last(), answer);
        assert(answered(msgs, answer).drop_last() =~= answered(msgs.drop_last(), answer));
        assert(answer(msgs.last()).decision() == ScriptResultView::Drop);
    }
}

/// With an entry point that answers every message with an object whose
/// `topic` and `msg` hold the texts `topic` and `text`, every message
/// that goes on to egress has that topic and the UTF-8 encoding of
/// that text as its payload, and one goes on for each that came in,
/// whatever its topic and payload were.
pub proof fn rewrite_replaces_both(
    script: Seq<char>,
    msgs: Seq<MsgView>,
    topic: Seq<char>,
    text: Seq<char>,
)
    ensures
        sent_over(
            script,
            answered(
                msgs,
                |msg: MsgView| ScriptValueView::Object { topic: Some(topic), msg: Some(text) },
            ),
        ) == Seq::new(msgs.len(), |i: int| MsgView { topic, payload: encode_utf8(text) }),
    decreases msgs.len(),
{
    let answer = |msg: MsgView| ScriptValueView::Object { topic: Some(topic), msg: Some(text) };
    let wanted = |i: int| MsgView { topic, payload: encode_utf8(text) };
    if msgs.len() > 0 {
        rewrite_replaces_both(script, msgs.drop_last(), topic, text);
        assert(answered(msgs, answer).drop_last() =~= answered(msgs.drop_last(), answer));
        assert(Seq::new(msgs.drop_last().len(), wanted).push(wanted(msgs.len() - 1)) =~= Seq::new(
            msgs.len(),
            wanted,
        ));
    } else {
        assert(Seq::new(msgs.len(), wanted) =~= Seq::<MsgView>::empty());
    }
}

/// Only `true` and an object with both texts let anything through, and
/// what goes on is the message itself or the rewritten one: the stage
/// sends at most one message for each it receives, and none of its own.
pub proof fn sends_only_what_was_decided(script: Seq<char>, msg: MsgView, value: ScriptValueView)
    ensures
        match process_step(script, ProcessEventView::Returned(msg, value)) {
            ProcessActionView::Send(passed) => {
                ||| value == ScriptValueView::Boolean(true) && passed == msg
                ||| (value matches ScriptValueView::Object { topic: Some(topic), msg: Some(text) }
                    && passed == (MsgView { topic, payload: encode_utf8(text) }))
            },
            ProcessActionView::Observe => true,
            _ => false,
        },
{
}

} // verus!
