use vstd::prelude::*;

verus! {

#[verifier::external_type_specification]
#[verifier::external_body]
pub struct ExPid(nix::unistd::Pid);

#[verifier::external_type_specification]
pub struct ExForkResult(nix::unistd::ForkResult);

/// Which of the two process duplications of the detachment sequence a fork
/// result comes from.
#[derive(Clone, Copy, Debug, PartialEq, Eq, Structural)]
pub enum Stage {
    /// The invoking process duplicates itself.
    First,
    /// The first duplicate, now leading a session of its own, duplicates itself.
    Second,
}

/// What a process does after one duplication of the detachment sequence.
#[derive(Clone, Copy, Debug, PartialEq, Eq, Structural)]
pub enum DetachStep {
    /// The invoking process: it is not the coordinator and returns to its
    /// caller, leaving the bound listener alone.
    ReturnToCaller,
    /// The first duplicate: start a new session, close the standard streams,
    /// and duplicate once more.
    Detach,
    /// The first duplicate after producing the coordinator: terminate at once.
    Exit,
    /// The second duplicate: it is the coordinator and runs the event loop on
    /// the inherited listener.
    RunLoop,
}

/// The step of the process that saw `is_child` at duplication `stage`.
pub open spec fn step_of(stage: Stage, is_child: bool) -> DetachStep {
    match (stage, is_child) {
        (Stage::First, false) => DetachStep::ReturnToCaller,
        (Stage::First, true) => DetachStep::Detach,
        (Stage::Second, false) => DetachStep::Exit,
        (Stage::Second, true) => DetachStep::RunLoop,
    }
}

/// Decides what a process does after duplication `stage` returned `forked`.
pub fn after_fork(stage: Stage, forked: &nix::unistd::ForkResult) -> (r: DetachStep)
    ensures
        r == step_of(stage, *forked is Child),
{
    match (stage, forked) {
        (Stage::First, nix::unistd::ForkResult::Parent { .. }) => DetachStep::ReturnToCaller,
        (Stage::First, nix::unistd::ForkResult::Child) => DetachStep::Detach,
        (Stage::Second, nix::unistd::ForkResult::Parent { .. }) => DetachStep::Exit,
        (Stage::Second, nix::unistd::ForkResult::Child) => DetachStep::RunLoop,
    }
}

/// Whether the detachment sequence reports this step as "is the coordinator";
/// `None` for the steps after which the process goes on inside the sequence or
/// ends.
pub fn is_coordinator(step: DetachStep) -> (r: Option<bool>)
    ensures
        r == match step {
            DetachStep::ReturnToCaller => Some(false),
            DetachStep::RunLoop => Some(true),
            _ => None::<bool>,
        },
{
    match step {
        DetachStep::ReturnToCaller => Some(false),
        DetachStep::RunLoop => Some(true),
        _ => None,
    }
}

/// The three participants of the detachment sequence: the invoker (parent at
/// the first duplication), the intermediate (child, then parent), and the
/// coordinator (child twice). Exactly one of them runs the event loop; the
/// invoker returns to its caller; the intermediate only detaches and exits.
pub proof fn lemma_one_coordinator()
    ensures
        step_of(Stage::First, false) == DetachStep::ReturnToCaller,
        step_of(Stage::First, true) == DetachStep::Detach,
        step_of(Stage::Second, false) == DetachStep::Exit,
        step_of(Stage::Second, true) == DetachStep::RunLoop,
        forall|stage: Stage, is_child: bool|
            step_of(stage, is_child) == DetachStep::RunLoop <==> (stage == Stage::Second && is_child),
{
}

} // verus!
