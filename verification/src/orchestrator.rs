//! The record/transcribe orchestration state machine.
//!
//! A single activation event drives Idle → Recording → Processing and
//! back; background completion events close the cycle. The machine
//! decides; the surrounding driver performs the capture and the
//! provider call and reports their outcomes back as events.

use vstd::prelude::*;

use crate::api::TranscriptionError;

verus! {

/// The authoritative state of the orchestrator.
#[derive(Clone, Copy, Debug, PartialEq, Eq, Structural)]
pub enum OrchestratorState {
    Idle,
    Recording,
    Processing,
}

/// An event the machine steps on: an activation whose demanded capture
/// action succeeded or failed, or the completion of a dispatched
/// transcription.
#[derive(Clone, Copy, Debug, PartialEq, Eq, Structural)]
pub enum OrchEvent {
    /// A user activation; `capture_ok` reports whether the capture
    /// action the current state demands (starting in Idle, stopping
    /// and encoding in Recording) succeeded. In Processing no action
    /// is demanded and the flag is meaningless.
    Activate { capture_ok: bool },
    /// The dispatched transcription resolved.
    Completion { success: bool },
}

/// The total transition function: every state and event maps to
/// exactly one next state.
pub open spec fn step(s: OrchestratorState, e: OrchEvent) -> OrchestratorState {
    match e {
        OrchEvent::Activate { capture_ok } => match s {
            OrchestratorState::Idle => if capture_ok {
                OrchestratorState::Recording
            } else {
                OrchestratorState::Idle
            },
            OrchestratorState::Recording => if capture_ok {
                OrchestratorState::Processing
            } else {
                OrchestratorState::Idle
            },
            OrchestratorState::Processing => OrchestratorState::Processing,
        },
        OrchEvent::Completion { .. } => match s {
            OrchestratorState::Processing => OrchestratorState::Idle,
            _ => s,
        },
    }
}

/// What an activation asks the driver to do.
#[derive(Clone, Copy, Debug, PartialEq, Eq, Structural)]
pub enum ActivateCommand {
    /// Idle: begin a capture session.
    BeginCapture,
    /// Recording: stop the session, encode, dispatch transcription.
    FinishCapture,
    /// Processing: nothing — the activation is ignored.
    Ignore,
}

/// What was dispatched for transcription resolved to.
pub enum TranscriptionOutcome {
    Success(String),
    Failure(TranscriptionError),
}

/// What the driver must deliver after a transcription resolves:
/// nothing is persisted and nothing reaches the clipboard unless the
/// outcome carried text.
pub struct DeliveryPlan {
    /// Text to hand to persistence, if any.
    pub persist: Option<String>,
    /// Text to hand to the clipboard, if any.
    pub clipboard: Option<String>,
    /// Whether a failure must be surfaced instead.
    pub surface_error: bool,
}

/// The orchestrator: the single authoritative state value and the
/// pending-paste flag.
pub struct Orchestrator {
    pub state: OrchestratorState,
    pub pending_paste: bool,
}

impl Orchestrator {
    /// A fresh orchestrator: Idle, nothing pending.
    pub fn new() -> (r: Orchestrator)
        ensures
            r.state is Idle,
            !r.pending_paste,
    {
        Orchestrator { state: OrchestratorState::Idle, pending_paste: false }
    }

    /// What an activation demands in the current state. Reads only;
    /// in Processing an activation demands nothing at all.
    pub fn on_activate(&self) -> (c: ActivateCommand)
        ensures
            c is BeginCapture <==> self.state is Idle,
            c is FinishCapture <==> self.state is Recording,
            c is Ignore <==> self.state is Processing,
    {
        match self.state {
            OrchestratorState::Idle => ActivateCommand::BeginCapture,
            OrchestratorState::Recording => ActivateCommand::FinishCapture,
            OrchestratorState::Processing => ActivateCommand::Ignore,
        }
    }

    /// Apply the outcome of beginning a capture: Recording on success,
    /// Idle (with the error surfaced by the driver) on failure.
    pub fn apply_capture_start(&mut self, started: bool)
        requires
            old(self).state is Idle,
        ensures
            final(self).state == step(
                old(self).state,
                OrchEvent::Activate { capture_ok: started },
            ),
            final(self).pending_paste == old(self).pending_paste,
    {
        if started {
            self.state = OrchestratorState::Recording;
        }
    }

    /// Apply the outcome of finishing a capture: Processing when the
    /// session encoded and the transcription was dispatched, Idle on
    /// failure.
    pub fn apply_capture_stop(&mut self, encoded: bool)
        requires
            old(self).state is Recording,
        ensures
            final(self).state == step(
                old(self).state,
                OrchEvent::Activate { capture_ok: encoded },
            ),
            final(self).pending_paste == old(self).pending_paste,
    {
        if encoded {
            self.state = OrchestratorState::Processing;
        } else {
            self.state = OrchestratorState::Idle;
        }
    }

    /// Apply a resolved transcription: the machine returns to Idle
    /// either way. A success plans exactly one persistence insert and
    /// one clipboard write of the text; a failure plans neither — only
    /// that the error be surfaced.
    pub fn apply_transcription(&mut self, outcome: TranscriptionOutcome) -> (plan: DeliveryPlan)
        requires
            old(self).state is Processing,
        ensures
            final(self).state == step(
                old(self).state,
                OrchEvent::Completion { success: outcome is Success },
            ),
            final(self).state is Idle,
            final(self).pending_paste == old(self).pending_paste,
            match outcome {
                TranscriptionOutcome::Success(t) => {
                    &&& plan.persist == Some(t)
                    &&& plan.clipboard == Some(t)
                    &&& !plan.surface_error
                },
                TranscriptionOutcome::Failure(_) => {
                    &&& plan.persist is None
                    &&& plan.clipboard is None
                    &&& plan.surface_error
                },
            },
    {
        self.state = OrchestratorState::Idle;
        match outcome {
            TranscriptionOutcome::Success(t) => DeliveryPlan {
                persist: Some(t.clone()),
                clipboard: Some(t),
                surface_error: false,
            },
            TranscriptionOutcome::Failure(_) => DeliveryPlan {
                persist: None,
                clipboard: None,
                surface_error: true,
            },
        }
    }

    /// Record whether the clipboard write succeeded: only then is a
    /// paste pending on the next focus loss.
    pub fn clipboard_delivered(&mut self, ok: bool)
        ensures
            final(self).state == old(self).state,
            final(self).pending_paste == ok,
    {
        self.pending_paste = ok;
    }

    /// A focus loss triggers the pending paste exactly once: returns
    /// whether to paste now, and clears the flag either way. With no
    /// paste pending this is a no-op.
    pub fn on_focus_lost(&mut self) -> (paste: bool)
        ensures
            final(self).state == old(self).state,
            !final(self).pending_paste,
            paste == old(self).pending_paste,
    {
        let paste = self.pending_paste;
        self.pending_paste = false;
        paste
    }
}

/// The state after running a sequence of events from `s0`.
pub open spec fn run(s0: OrchestratorState, es: Seq<OrchEvent>) -> OrchestratorState
    decreases es.len(),
{
    if es.len() == 0 {
        s0
    } else {
        step(run(s0, es.drop_last()), es.last())
    }
}

/// Unfold one step of `run` at index `m`.
proof fn lemma_run_unfold(s0: OrchestratorState, es: Seq<OrchEvent>, m: int)
    requires
        0 <= m < es.len(),
    ensures
        run(s0, es.take(m + 1)) == step(run(s0, es.take(m)), es[m]),
{
    let t = es.take(m + 1);
    assert(t.drop_last() =~= es.take(m));
    assert(t.last() == es[m]);
}

/// Processing is entered only by an activation that successfully
/// finished a capture in Recording.
pub proof fn lemma_processing_entered_from_recording(s: OrchestratorState, e: OrchEvent)
    ensures
        step(s, e) is Processing && !(s is Processing) ==> (s is Recording && e == (OrchEvent::Activate {
            capture_ok: true,
        })),
{
}

/// Recording is entered only by an activation that successfully began
/// a capture in Idle: every activation cycle starts from Idle.
pub proof fn lemma_recording_entered_from_idle(s: OrchestratorState, e: OrchEvent)
    ensures
        step(s, e) is Recording && !(s is Recording) ==> (s is Idle && e == (OrchEvent::Activate {
            capture_ok: true,
        })),
{
}

/// An activation received in Processing is a no-op: the state is
/// unchanged, and `on_activate` demands nothing of the driver — so no
/// capture action touches the buffer.
pub proof fn lemma_activate_in_processing_is_noop(e: OrchEvent)
    requires
        e is Activate,
    ensures
        step(OrchestratorState::Processing, e) == OrchestratorState::Processing,
{
}

/// While in Processing the machine can move only to Idle, never
/// directly back into a capture.
proof fn lemma_processing_exits_to_idle(e: OrchEvent)
    ensures
        step(OrchestratorState::Processing, e) is Processing || step(
            OrchestratorState::Processing,
            e,
        ) is Idle,
{
}

/// Between being in Processing at `m` and being out of it at `n`, the
/// machine visits Idle.
proof fn lemma_leaves_processing_via_idle(
    s0: OrchestratorState,
    es: Seq<OrchEvent>,
    m: int,
    n: int,
)
    requires
        0 <= m < n <= es.len(),
        run(s0, es.take(m)) is Processing,
        !(run(s0, es.take(n)) is Processing),
    ensures
        exists|k: int| m < k <= n && run(s0, es.take(k)) is Idle,
    decreases n - m,
{
    lemma_run_unfold(s0, es, m);
    lemma_processing_exits_to_idle(es[m]);
    let next = run(s0, es.take(m + 1));
    if next is Idle {
        assert(m < m + 1 <= n && run(s0, es.take(m + 1)) is Idle);
    } else {
        assert(next is Processing);
        assert(m + 1 < n);
        lemma_leaves_processing_via_idle(s0, es, m + 1, n);
    }
}

/// Processing is reached at most once per activation cycle: between
/// any two entries into Processing the machine passes through Idle,
/// where only a fresh activation can begin a new cycle.
pub proof fn lemma_processing_once_per_cycle(
    s0: OrchestratorState,
    es: Seq<OrchEvent>,
    i: int,
    j: int,
)
    requires
        0 <= i < j < es.len(),
        !(run(s0, es.take(i)) is Processing),
        run(s0, es.take(i + 1)) is Processing,
        !(run(s0, es.take(j)) is Processing),
        run(s0, es.take(j + 1)) is Processing,
    ensures
        exists|k: int| i < k <= j && run(s0, es.take(k)) is Idle,
{
    lemma_leaves_processing_via_idle(s0, es, i + 1, j);
}

} // verus!
