//! The capture loop's control logic and the capture manager's lifecycle.
//!
//! The capture thread itself pumps the platform's message queue; what is
//! verified here is every decision that loop takes: what each retrieved
//! message emits, when an iteration keeps going, what a whole session of
//! iterations delivers, and the forward-only life cycle of the manager
//! that owns the thread.

use vstd::prelude::*;

use crate::decode::single_record_event;
use crate::decode::decode_single_record;
use crate::event::MouseRawEvent;

verus! {

/// One message retrieved from the platform's message queue, as the capture
/// loop sees it: a raw-input notification carrying the bytes of exactly one
/// record, some other message, the platform's quit indication (the
/// blocking retrieval returned its termination sentinel), or a raw-input
/// notification whose record could not be fetched at all (the fetch
/// returned its error sentinel) — an unrecoverable corruption of the
/// raw-input subsystem.
pub enum PumpMessage {
    RawInput(Vec<u8>),
    Other,
    Quit,
    FetchError,
}

/// What the non-blocking poll of the shutdown-command channel found:
/// nothing pending, an explicit shutdown command, or a closed channel
/// (the manager end is gone), which counts as a shutdown signal too.
pub enum CommandPoll {
    Idle,
    ExitRequested,
    Disconnected,
}

/// One iteration's worth of input to the capture loop: the message that the
/// blocking retrieval returned, then the result of the command poll that
/// follows it.
pub struct CaptureInput {
    pub message: PumpMessage,
    pub command: CommandPoll,
}

/// The event one loop iteration emits: only a raw-input notification whose
/// bytes form a well-formed mouse record yields one.
pub open spec fn step_emits(input: CaptureInput) -> Option<MouseRawEvent> {
    match input.message {
        PumpMessage::RawInput(b) => single_record_event(b@),
        PumpMessage::Other => None,
        PumpMessage::Quit => None,
        PumpMessage::FetchError => None,
    }
}

/// Whether the loop runs another iteration afterwards: it stops on the
/// platform's quit indication, on a failed record fetch (which is fatal,
/// see `step_fatal`), on an explicit shutdown command, and on a closed
/// command channel, and in no other case.
pub open spec fn step_continues(input: CaptureInput) -> bool {
    !(input.message is Quit) && !(input.message is FetchError) && input.command is Idle
}

/// Whether the iteration ends the capture thread fatally: exactly on a
/// failed record fetch. There is no defined recovery for a corrupted
/// raw-input subsystem, so the thread must abort — emitting nothing, as
/// `step_emits` says — rather than guess at possibly-wrong data.
pub open spec fn step_fatal(input: CaptureInput) -> bool {
    input.message is FetchError
}

/// Every event a capture session delivers, in order, for a given sequence
/// of loop inputs: each iteration's emitted event up to and including the
/// first iteration that observes a stop condition, and nothing further.
pub open spec fn session_events(inputs: Seq<CaptureInput>) -> Seq<MouseRawEvent>
    decreases inputs.len(),
{
    if inputs.len() == 0 {
        Seq::empty()
    } else {
        let head = match step_emits(inputs[0]) {
            Some(e) => seq![e],
            None => Seq::<MouseRawEvent>::empty(),
        };
        if step_continues(inputs[0]) {
            head + session_events(inputs.drop_first())
        } else {
            head
        }
    }
}

/// Run one capture-loop iteration on its inputs: the decoded mouse event of
/// a raw-input message, if any, and whether the loop goes on.
pub fn capture_step(input: &CaptureInput) -> (r: (Option<MouseRawEvent>, bool))
    ensures
        r.0 == step_emits(*input),
        r.1 == step_continues(*input),
{
    let emitted = match &input.message {
        PumpMessage::RawInput(bytes) => decode_single_record(bytes),
        PumpMessage::Other => None,
        PumpMessage::Quit => None,
        PumpMessage::FetchError => None,
    };
    let go_on = match &input.message {
        PumpMessage::Quit => false,
        PumpMessage::FetchError => false,
        _ => match &input.command {
            CommandPoll::Idle => true,
            CommandPoll::ExitRequested => false,
            CommandPoll::Disconnected => false,
        },
    };
    (emitted, go_on)
}

/// Whether this iteration must abort the capture thread: a failed record
/// fetch, the one unrecoverable condition of the loop.
pub fn step_is_fatal(input: &CaptureInput) -> (r: bool)
    ensures
        r == step_fatal(*input),
{
    match &input.message {
        PumpMessage::FetchError => true,
        _ => false,
    }
}

/// Run a whole capture session over a sequence of pre-fetched loop inputs:
/// exactly the events of `session_events`, in order. The live loop performs
/// the same steps one message at a time as the platform delivers them.
pub fn run_capture_loop(inputs: &Vec<CaptureInput>) -> (out: Vec<MouseRawEvent>)
    ensures
        out@ == session_events(inputs@),
{
    let n = inputs.len();
    let mut out: Vec<MouseRawEvent> = Vec::new();
    let mut i: usize = 0;
    proof {
        assert(inputs@.skip(0) =~= inputs@);
    }
    while i < n
        invariant
            i <= n,
            n == inputs@.len(),
            session_events(inputs@) == out@ + session_events(inputs@.skip(i as int)),
        decreases n - i,
    {
        let ghost rest = inputs@.skip(i as int);
        let ghost out0 = out@;
        let input = &inputs[i];
        proof {
            assert(rest[0] == inputs@[i as int]);
        }
        let (emitted, go_on) = capture_step(input);
        let ghost head = match step_emits(*input) {
            Some(e) => seq![e],
            None => Seq::<MouseRawEvent>::empty(),
        };
        if let Some(e) = emitted {
            out.push(e);
        }
        proof {
            assert(out@ =~= out0 + head);
        }
        if !go_on {
            proof {
                assert(session_events(rest) == head);
                assert(session_events(inputs@) =~= out@);
            }
            return out;
        }
        proof {
            assert(rest.drop_first() =~= inputs@.skip(i + 1));
            assert(session_events(rest) == head + session_events(inputs@.skip(i + 1)));
            assert(out0 + (head + session_events(inputs@.skip(i + 1))) =~= (out0 + head)
                + session_events(inputs@.skip(i + 1)));
        }
        i = i + 1;
    }
    proof {
        assert(inputs@.skip(n as int) =~= Seq::<CaptureInput>::empty());
        assert(out@ + Seq::<MouseRawEvent>::empty() =~= out@);
    }
    out
}

/// Ordering through the message-driven path: a session whose inputs are
/// raw-input notifications carrying one well-formed mouse record each,
/// with no stop condition among them, delivers exactly one event per
/// record, in injection order — nothing lost, duplicated or reordered.
pub proof fn lemma_session_preserves_order(inputs: Seq<CaptureInput>)
    requires
        forall|k: int| 0 <= k < inputs.len() ==> (#[trigger] step_emits(inputs[k])) is Some,
        forall|k: int| 0 <= k < inputs.len() ==> step_continues(#[trigger] inputs[k]),
    ensures
        session_events(inputs) == Seq::new(
            inputs.len(),
            |k: int| step_emits(inputs[k])->0,
        ),
    decreases inputs.len(),
{
    let n = inputs.len() as int;
    let expected = Seq::new(inputs.len(), |k: int| step_emits(inputs[k])->0);
    if n == 0 {
        assert(session_events(inputs) =~= expected);
    } else {
        let rest = inputs.drop_first();
        assert(forall|k: int| 0 <= k < rest.len() ==> rest[k] == inputs[k + 1]);
        lemma_session_preserves_order(rest);
        let e0 = step_emits(inputs[0])->0;
        assert(session_events(inputs) == seq![e0] + session_events(rest));
        assert(seq![e0] + Seq::new(rest.len(), |k: int| step_emits(rest[k])->0) =~= expected);
    }
}

/// Clean shutdown, stated for every timing of the stop signal: however the
/// loop's inputs interleave events and commands, once some iteration
/// observes a stop condition — a quit indication, a shutdown command, or a
/// closed command channel — the session delivers exactly what the
/// iterations up to and including that one emitted. Later inputs contribute
/// no events: none is fabricated, duplicated or delivered after shutdown.
pub proof fn lemma_shutdown_halts_session(inputs: Seq<CaptureInput>, i: int)
    requires
        0 <= i < inputs.len(),
        !step_continues(inputs[i]),
        forall|j: int| 0 <= j < i ==> step_continues(#[trigger] inputs[j]),
    ensures
        session_events(inputs) == session_events(inputs.take(i + 1)),
    decreases i,
{
    let pre = inputs.take(i + 1);
    assert(pre[0] == inputs[0]);
    if i == 0 {
        assert(session_events(pre) == session_events(inputs));
    } else {
        assert(step_continues(inputs[0]));
        let rest = inputs.drop_first();
        assert(forall|j: int| 0 <= j < i - 1 ==> step_continues(#[trigger] rest[j]));
        assert(!step_continues(rest[i - 1]));
        lemma_shutdown_halts_session(rest, i - 1);
        assert(pre.drop_first() =~= rest.take(i));
    }
}

/// The life of a capture manager, which only ever moves forward: created,
/// running its capture thread, asked to stop, and stopped for good — the
/// capture thread has been joined and its window destroyed.
#[derive(Clone, Copy, Debug, PartialEq, Eq, Structural)]
pub enum ManagerPhase {
    Created,
    Running,
    StopRequested,
    Stopped,
}

/// The capture manager's lifecycle: the state machine the unverified
/// manager shell steps through, so that signalling shutdown before joining
/// the capture thread is enforced by contract rather than by convention.
pub struct ManagerLifecycle {
    phase: ManagerPhase,
}

impl ManagerLifecycle {
    /// The phase the manager is in.
    pub closed spec fn phase(self) -> ManagerPhase {
        self.phase
    }

    /// Receiving events is valid only while the capture thread runs.
    pub open spec fn may_get_event(self) -> bool {
        self.phase() is Running
    }

    /// A manager starts its life before its capture thread exists.
    pub fn new() -> (m: ManagerLifecycle)
        ensures
            m.phase() is Created,
    {
        ManagerLifecycle { phase: ManagerPhase::Created }
    }

    /// The capture thread has been spawned: the manager is running.
    pub fn mark_running(&mut self)
        requires
            old(self).phase() is Created,
        ensures
            final(self).phase() is Running,
    {
        self.phase = ManagerPhase::Running;
    }

    /// The shutdown command has been sent. Disposal must pass through here
    /// before it may join the thread.
    pub fn mark_stop_requested(&mut self)
        requires
            old(self).phase() is Running,
        ensures
            final(self).phase() is StopRequested,
    {
        self.phase = ManagerPhase::StopRequested;
    }

    /// The capture thread has been joined: teardown is complete, and no
    /// capture code runs any more. Only valid after the stop request, which
    /// is the signal-then-join ordering disposal must keep.
    pub fn mark_stopped(&mut self)
        requires
            old(self).phase() is StopRequested,
        ensures
            final(self).phase() is Stopped,
    {
        self.phase = ManagerPhase::Stopped;
    }

    /// Whether `get_event` may be called now.
    pub fn is_running(&self) -> (r: bool)
        ensures
            r == self.may_get_event(),
    {
        match self.phase {
            ManagerPhase::Running => true,
            _ => false,
        }
    }
}

} // verus!
