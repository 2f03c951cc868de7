//! The order in which a panic is reported.
//!
//! Reporting a panic means touching the device: masking interrupts, opening
//! the host's console, writing to it, trapping into the debugger.  None of
//! that is done here.  A [`Reporter`] decides what is to be done; its caller
//! does it and tells the reporter how it went.  The reporter never runs out
//! of work: once the trap has been taken it asks its caller to spin, and goes
//! on asking.

use vstd::prelude::*;
use crate::payload::{PanicPayload, PayloadModel};
use crate::report::{format_report, report_text};

verus! {

/// How far the report has come: the operation that is to be carried out now.
#[derive(Clone, Copy, Debug, PartialEq, Eq, Structural)]
pub enum Phase {
    /// The maskable interrupts are to be masked.
    Masking,
    /// The host's console is to be opened.
    Opening,
    /// The line is to be written to the console.
    Writing,
    /// The breakpoint trap is to be taken.
    Trapping,
    /// The processor is to spin.
    Spinning,
}

/// How an operation has ended.
#[derive(Clone, Copy, Debug, PartialEq, Eq, Structural)]
pub enum Outcome {
    /// It was carried out.
    Done,
    /// It could not be carried out.
    Failed,
}

/// An operation that the caller is asked to carry out on the device.
#[derive(Clone, Debug, PartialEq, Eq)]
pub enum Action {
    /// Mask all maskable interrupts.
    MaskInterrupts,
    /// Open the host's console for writing.
    OpenChannel,
    /// Write the text to the console, followed by a line feed.
    WriteLine(String),
    /// Execute the breakpoint instruction.
    Trap,
    /// Loop without doing anything.
    Spin,
}

/// The mathematical content of an [`Action`].
pub enum ActionModel {
    MaskInterrupts,
    OpenChannel,
    WriteLine(Seq<char>),
    Trap,
    Spin,
}

impl View for Action {
    type V = ActionModel;

    open spec fn view(&self) -> ActionModel {
        match self {
            Action::MaskInterrupts => ActionModel::MaskInterrupts,
            Action::OpenChannel => ActionModel::OpenChannel,
            Action::WriteLine(text) => ActionModel::WriteLine(text@),
            Action::Trap => ActionModel::Trap,
            Action::Spin => ActionModel::Spin,
        }
    }
}

/// Whether the action touches the host's console.
pub open spec fn is_channel_operation(action: ActionModel) -> bool {
    action is OpenChannel || action is WriteLine
}

/// The operation that is carried out in `phase` when `payload` is reported.
pub open spec fn action_of(phase: Phase, payload: PayloadModel) -> ActionModel {
    match phase {
        Phase::Masking => ActionModel::MaskInterrupts,
        Phase::Opening => ActionModel::OpenChannel,
        Phase::Writing => ActionModel::WriteLine(report_text(payload)),
        Phase::Trapping => ActionModel::Trap,
        Phase::Spinning => ActionModel::Spin,
    }
}

/// The phase that follows `phase` when its operation has ended with
/// `outcome`.
///
/// Only the attempt to open the console has a say: when it fails, writing is
/// skipped.  How any other operation ended makes no difference; a line that
/// could not be written is given up.
pub open spec fn next_phase(phase: Phase, outcome: Outcome) -> Phase {
    match phase {
        Phase::Masking => Phase::Opening,
        Phase::Opening => match outcome {
            Outcome::Done => Phase::Writing,
            Outcome::Failed => Phase::Trapping,
        },
        Phase::Writing => Phase::Trapping,
        Phase::Trapping => Phase::Spinning,
        Phase::Spinning => Phase::Spinning,
    }
}

/// Decides, step by step, what is done to report one panic.
pub struct Reporter {
    payload: PanicPayload,
    phase: Phase,
}

/// The mathematical content of a [`Reporter`].
pub struct ReporterModel {
    pub payload: PayloadModel,
    pub phase: Phase,
}

impl View for Reporter {
    type V = ReporterModel;

    closed spec fn view(&self) -> ReporterModel {
        ReporterModel { payload: self.payload@, phase: self.phase }
    }
}

impl Reporter {
    /// A reporter for `payload`.  The first thing it asks for is that the
    /// interrupts be masked.
    pub fn new(payload: PanicPayload) -> (reporter: Self)
        ensures
            reporter@.payload == payload@,
            reporter@.phase == Phase::Masking,
    {
        Reporter { payload, phase: Phase::Masking }
    }

    /// How far the report has come.
    pub fn phase(&self) -> (phase: Phase)
        ensures
            phase == self@.phase,
    {
        self.phase
    }

    /// The panic that is being reported.
    pub fn payload(&self) -> (payload: &PanicPayload)
        ensures
            payload@ == self@.payload,
    {
        &self.payload
    }

    /// The operation that is to be carried out now.
    pub fn pending(&self) -> (action: Action)
        ensures
            action@ == action_of(self@.phase, self@.payload),
    {
        match self.phase {
            Phase::Masking => Action::MaskInterrupts,
            Phase::Opening => Action::OpenChannel,
            Phase::Writing => Action::WriteLine(format_report(&self.payload)),
            Phase::Trapping => Action::Trap,
            Phase::Spinning => Action::Spin,
        }
    }

    /// Takes in how the pending operation has ended, moves on to the next
    /// phase and returns the operation that is pending then.
    pub fn advance(&mut self, outcome: Outcome) -> (action: Action)
        ensures
            final(self)@.payload == old(self)@.payload,
            final(self)@.phase == next_phase(old(self)@.phase, outcome),
            action@ == action_of(final(self)@.phase, final(self)@.payload),
    {
        self.phase = match self.phase {
            Phase::Masking => Phase::Opening,
            Phase::Opening => match outcome {
                Outcome::Done => Phase::Writing,
                Outcome::Failed => Phase::Trapping,
            },
            Phase::Writing => Phase::Trapping,
            Phase::Trapping | Phase::Spinning => Phase::Spinning,
        };
        self.pending()
    }
}

/// The phase that a reporter is in once it has taken in `outcomes`, one
/// after the other, starting from a new reporter.
pub open spec fn phase_after(outcomes: Seq<Outcome>) -> Phase
    decreases outcomes.len(),
{
    if outcomes.len() == 0 {
        Phase::Masking
    } else {
        next_phase(phase_after(outcomes.drop_last()), outcomes.last())
    }
}

/// The operation that is asked for at `step`, counted from zero, when
/// `payload` is reported and the operations end as `outcomes` says:
/// `outcomes[i]` is how the operation of step `i` ended.
pub open spec fn action_at(payload: PayloadModel, outcomes: Seq<Outcome>, step: int) -> ActionModel
    recommends
        0 <= step <= outcomes.len(),
{
    action_of(phase_after(outcomes.take(step)), payload)
}

/// The phase after any number of outcomes, written out: two steps lead to
/// the attempt to open the console, its outcome decides whether writing is
/// the third, and from the fifth step on, at the latest, the phase is
/// `Spinning`.
pub proof fn lemma_phase_after(outcomes: Seq<Outcome>)
    ensures
        phase_after(outcomes) == if outcomes.len() == 0 {
            Phase::Masking
        } else if outcomes.len() == 1 {
            Phase::Opening
        } else if outcomes[1] == Outcome::Done {
            if outcomes.len() == 2 {
                Phase::Writing
            } else if outcomes.len() == 3 {
                Phase::Trapping
            } else {
                Phase::Spinning
            }
        } else {
            if outcomes.len() == 2 {
                Phase::Trapping
            } else {
                Phase::Spinning
            }
        },
    decreases outcomes.len(),
{
    if outcomes.len() > 0 {
        lemma_phase_after(outcomes.drop_last());
    }
}

/// Masking the interrupts is the first operation of every report, whatever
/// the payload and however the operations end.  It is asked for once only,
/// and the console is not touched before the second step.
pub proof fn lemma_masking_comes_first(payload: PayloadModel, outcomes: Seq<Outcome>, step: int)
    requires
        0 <= step <= outcomes.len(),
    ensures
        action_at(payload, outcomes, 0) == ActionModel::MaskInterrupts,
        step > 0 ==> action_at(payload, outcomes, step) != ActionModel::MaskInterrupts,
        is_channel_operation(action_at(payload, outcomes, step)) ==> step > 0,
{
    lemma_phase_after(outcomes.take(0));
    lemma_phase_after(outcomes.take(step));
}

/// When the console cannot be opened, nothing is written: the trap is taken
/// in place of the write, and the processor spins from then on.
pub proof fn lemma_closed_channel_goes_to_trap(
    payload: PayloadModel,
    outcomes: Seq<Outcome>,
    step: int,
)
    requires
        outcomes.len() >= 2,
        outcomes[1] == Outcome::Failed,
        0 <= step <= outcomes.len(),
    ensures
        action_at(payload, outcomes, 1) == ActionModel::OpenChannel,
        action_at(payload, outcomes, 2) == ActionModel::Trap,
        step > 2 ==> action_at(payload, outcomes, step) == ActionModel::Spin,
        !(action_at(payload, outcomes, step) is WriteLine),
{
    lemma_phase_after(outcomes.take(1));
    lemma_phase_after(outcomes.take(2));
    lemma_phase_after(outcomes.take(step));
}

/// When the console can be opened, the line that reports the payload is
/// written at the third step and the trap is taken at the fourth, whether or
/// not the line could be written.
pub proof fn lemma_open_channel_gets_the_line(payload: PayloadModel, outcomes: Seq<Outcome>)
    requires
        outcomes.len() >= 3,
        outcomes[1] == Outcome::Done,
    ensures
        action_at(payload, outcomes, 1) == ActionModel::OpenChannel,
        action_at(payload, outcomes, 2) == ActionModel::WriteLine(report_text(payload)),
        action_at(payload, outcomes, 3) == ActionModel::Trap,
{
    lemma_phase_after(outcomes.take(1));
    lemma_phase_after(outcomes.take(2));
    lemma_phase_after(outcomes.take(3));
}

/// A report has no end.  From the fifth step on the reporter asks for
/// nothing but spinning, for every payload and whatever its caller tells it;
/// and a reporter that spins goes on spinning.
pub proof fn lemma_spins_forever(payload: PayloadModel, outcomes: Seq<Outcome>, step: int)
    requires
        4 <= step <= outcomes.len(),
    ensures
        phase_after(outcomes.take(step)) == Phase::Spinning,
        action_at(payload, outcomes, step) == ActionModel::Spin,
        forall|outcome: Outcome| next_phase(Phase::Spinning, outcome) == Phase::Spinning,
{
    lemma_phase_after(outcomes.take(step));
}

/// Two reports of one payload take the same course unless the console
/// opens in one and not in the other: no other outcome is looked at.
pub proof fn lemma_only_opening_decides(
    payload: PayloadModel,
    first: Seq<Outcome>,
    second: Seq<Outcome>,
    step: int,
)
    requires
        0 <= step <= first.len(),
        step <= second.len(),
        step > 1 ==> first[1] == second[1],
    ensures
        action_at(payload, first, step) == action_at(payload, second, step),
{
    lemma_phase_after(first.take(step));
    lemma_phase_after(second.take(step));
}

} // verus!
