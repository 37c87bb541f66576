use vstd::prelude::*;

use crate::bank::GuardError;
use crate::command::{command_model, Command, CommandModel};

verus! {

/// One step of a command sequence for the transport to carry out.
#[derive(Clone, Debug)]
pub enum Step {
    /// Send the command: its address word, then one word per parameter.
    Send(Command),
    /// Wait this many milliseconds before the next step.
    Sleep(u64),
}

/// The mathematical value of a step.
pub ghost enum StepModel {
    Send(CommandModel),
    Sleep(u64),
}

impl View for Step {
    type V = StepModel;

    open spec fn view(&self) -> StepModel {
        match self {
            Step::Send(c) => StepModel::Send(c@),
            Step::Sleep(ms) => StepModel::Sleep(*ms),
        }
    }
}

/// The models of a sequence of steps.
pub open spec fn steps_view(steps: Seq<Step>) -> Seq<StepModel> {
    steps.map_values(|s: Step| s@)
}

/// The step that sends a command with the given opcode and parameters.
pub open spec fn send_step(address: u8, parameters: Seq<u8>) -> StepModel {
    StepModel::Send(command_model(address, parameters))
}

proof fn lemma_steps_view_push(steps: Seq<Step>, s: Step)
    ensures
        steps_view(steps.push(s)) == steps_view(steps).push(s@),
{
    assert(steps_view(steps.push(s)) =~= steps_view(steps).push(s@));
}

/// Appends a built command to the sequence. A refused command is left out:
/// nothing of it is ever sent.
pub(crate) fn push_built(steps: &mut Vec<Step>, r: Result<Command, GuardError>)
    ensures
        r is Ok ==> steps_view(final(steps)@) == steps_view(old(steps)@).push(
            StepModel::Send(r->Ok_0@),
        ),
        r is Err ==> final(steps)@ == old(steps)@,
{
    match r {
        Ok(c) => {
            proof {
                lemma_steps_view_push(steps@, Step::Send(c));
            }
            steps.push(Step::Send(c));
        },
        Err(_) => {},
    }
}

/// Appends a command given as literal bytes: its opcode and parameters are
/// sent as they stand.
pub(crate) fn push_raw(steps: &mut Vec<Step>, address: u8, parameters: &[u8])
    ensures
        steps_view(final(steps)@) == steps_view(old(steps)@).push(send_step(address, parameters@)),
{
    let c = Command::new(address).args(parameters);
    proof {
        lemma_steps_view_push(steps@, Step::Send(c));
    }
    steps.push(Step::Send(c));
}

/// Appends a wait of `ms` milliseconds.
pub(crate) fn push_sleep(steps: &mut Vec<Step>, ms: u64)
    ensures
        steps_view(final(steps)@) == steps_view(old(steps)@).push(StepModel::Sleep(ms)),
{
    proof {
        lemma_steps_view_push(steps@, Step::Sleep(ms));
    }
    steps.push(Step::Sleep(ms));
}

} // verus!
