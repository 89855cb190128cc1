use vstd::prelude::*;
use vstd::string::*;

use crate::command::bare_dir_name;
use crate::command::bare_dir_spec;
use crate::command::clone_command;
use crate::command::is_clone_command;
use crate::command::is_push_command;
use crate::command::is_transfer_command;
use crate::command::push_command;
use crate::command::transfer_command;
use crate::request::DeploymentRequest;

verus! {

/// The four steps of a run, in the order they are attempted.
#[derive(Clone, Copy, Debug, PartialEq, Eq, Structural)]
pub enum Step {
    BareClone,
    Transfer,
    Cleanup,
    Push,
}

/// One named error per way a run can end short of success; every error is
/// terminal, and the run exits with status 1 carrying its message.
#[derive(Clone, Copy, Debug, PartialEq, Eq, Structural)]
pub enum DeployError {
    Usage,
    CloneFailed,
    TransferFailed,
    CleanupFailed,
    PushFailed,
}

/// Where a run stands: before one of the four steps, or in one of the two
/// terminal states. A failed step moves the run to `Failed` with that
/// step's error; nothing leaves a terminal state.
#[derive(Clone, Copy, Debug, PartialEq, Eq, Structural)]
pub enum Phase {
    AtClone,
    AtTransfer,
    AtCleanup,
    AtPush,
    Done,
    Failed(DeployError),
}

/// What the shell around the library must do next: spawn an external
/// command with the given argument vector, or remove a directory tree.
#[derive(Clone, Debug, PartialEq, Eq)]
pub enum Action {
    RunCommand(Vec<String>),
    RemoveDirectory(String),
}

/// The phase a run starts in: the guard refuses a project argument of `"."`
/// outright, before any step; every other request begins at the clone step.
pub open spec fn spec_start(req: DeploymentRequest) -> Phase {
    if req.names_current_dir() {
        Phase::Failed(DeployError::Usage)
    } else {
        Phase::AtClone
    }
}

/// The step a phase is about to attempt, if any.
pub open spec fn spec_pending(p: Phase) -> Option<Step> {
    match p {
        Phase::AtClone => Some(Step::BareClone),
        Phase::AtTransfer => Some(Step::Transfer),
        Phase::AtCleanup => Some(Step::Cleanup),
        Phase::AtPush => Some(Step::Push),
        Phase::Done => None,
        Phase::Failed(_) => None,
    }
}

/// A phase with no pending step: the run is over.
pub open spec fn is_terminal(p: Phase) -> bool {
    spec_pending(p) is None
}

/// The transition relation: a successful step moves to the next step (or to
/// `Done` after the push); a failed step moves to `Failed` with that step's
/// error; terminal phases absorb every outcome.
pub open spec fn spec_advance(p: Phase, ok: bool) -> Phase {
    match p {
        Phase::AtClone => if ok {
            Phase::AtTransfer
        } else {
            Phase::Failed(DeployError::CloneFailed)
        },
        Phase::AtTransfer => if ok {
            Phase::AtCleanup
        } else {
            Phase::Failed(DeployError::TransferFailed)
        },
        Phase::AtCleanup => if ok {
            Phase::AtPush
        } else {
            Phase::Failed(DeployError::CleanupFailed)
        },
        Phase::AtPush => if ok {
            Phase::Done
        } else {
            Phase::Failed(DeployError::PushFailed)
        },
        Phase::Done => Phase::Done,
        Phase::Failed(e) => Phase::Failed(e),
    }
}

/// The phase a run reaches from `p` after the steps it attempts see the
/// given outcomes, one outcome per attempted step, in order.
pub open spec fn spec_run(p: Phase, outcomes: Seq<bool>) -> Phase
    decreases outcomes.len(),
{
    if outcomes.len() == 0 {
        p
    } else {
        spec_run(spec_advance(p, outcomes[0]), outcomes.drop_first())
    }
}

/// The steps a run actually attempts from `p` under the given outcomes: the
/// run consumes one outcome per pending step and attempts nothing once it
/// reaches a terminal phase.
pub open spec fn spec_steps(p: Phase, outcomes: Seq<bool>) -> Seq<Step>
    decreases outcomes.len(),
{
    if outcomes.len() == 0 {
        Seq::<Step>::empty()
    } else {
        match spec_pending(p) {
            None => Seq::<Step>::empty(),
            Some(s) => seq![s] + spec_steps(spec_advance(p, outcomes[0]), outcomes.drop_first()),
        }
    }
}

/// The process exit status a terminal phase stands for: 0 only for `Done`.
pub open spec fn spec_exit_code(p: Phase) -> int {
    if p == Phase::Done {
        0int
    } else {
        1int
    }
}

/// The diagnostic printed for each error, one line on the error stream.
/// For a cleanup failure the shell appends the underlying I/O error text.
pub open spec fn spec_message(e: DeployError) -> Seq<char> {
    match e {
        DeployError::Usage => "Error: Use this tool from the parent directory."@,
        DeployError::CloneFailed => "Error: Failed to clone repository."@,
        DeployError::TransferFailed => "Error: Failed to copy repository to server."@,
        DeployError::CleanupFailed => "Error: Failed to remove local repository"@,
        DeployError::PushFailed => "Error: Failed to add remote origin or push to server."@,
    }
}

/// Ties an action to the phase that demands it: each pending step gets
/// exactly its own invocation, built from the request, and a terminal
/// phase gets none.
pub open spec fn action_for(a: Option<Action>, p: Phase, req: DeploymentRequest) -> bool {
    match p {
        Phase::AtClone => a matches Some(Action::RunCommand(v)) && is_clone_command(
            v@,
            req.project@,
        ),
        Phase::AtTransfer => a matches Some(Action::RunCommand(v)) && is_transfer_command(
            v@,
            req.project@,
            req.server@,
        ),
        Phase::AtCleanup => a matches Some(Action::RemoveDirectory(d)) && d@ == bare_dir_spec(
            req.project@,
        ),
        Phase::AtPush => a matches Some(Action::RunCommand(v)) && is_push_command(
            v@,
            req.project@,
            req.server@,
            req.remote@,
        ),
        Phase::Done => a is None,
        Phase::Failed(_) => a is None,
    }
}

/// Starts a run: `Failed(Usage)` when the guard refuses the request,
/// otherwise the clone step.
pub fn start(req: &DeploymentRequest) -> (r: Phase)
    ensures
        r == spec_start(*req),
{
    if req.is_current_dir() {
        Phase::Failed(DeployError::Usage)
    } else {
        Phase::AtClone
    }
}

/// Moves a run one step forward, given whether the attempted step
/// succeeded.
pub fn advance(p: Phase, ok: bool) -> (r: Phase)
    ensures
        r == spec_advance(p, ok),
{
    match p {
        Phase::AtClone => if ok {
            Phase::AtTransfer
        } else {
            Phase::Failed(DeployError::CloneFailed)
        },
        Phase::AtTransfer => if ok {
            Phase::AtCleanup
        } else {
            Phase::Failed(DeployError::TransferFailed)
        },
        Phase::AtCleanup => if ok {
            Phase::AtPush
        } else {
            Phase::Failed(DeployError::CleanupFailed)
        },
        Phase::AtPush => if ok {
            Phase::Done
        } else {
            Phase::Failed(DeployError::PushFailed)
        },
        Phase::Done => Phase::Done,
        Phase::Failed(e) => Phase::Failed(e),
    }
}

/// The step the given phase is about to attempt, if any.
pub fn pending_step(p: &Phase) -> (r: Option<Step>)
    ensures
        r == spec_pending(*p),
{
    match p {
        Phase::AtClone => Some(Step::BareClone),
        Phase::AtTransfer => Some(Step::Transfer),
        Phase::AtCleanup => Some(Step::Cleanup),
        Phase::AtPush => Some(Step::Push),
        Phase::Done => None,
        Phase::Failed(_) => None,
    }
}

/// What the shell must do for the given phase: the exact invocation of the
/// pending step, or nothing once the run is over.
pub fn next_action(p: &Phase, req: &DeploymentRequest) -> (r: Option<Action>)
    ensures
        action_for(r, *p, *req),
{
    match p {
        Phase::AtClone => Some(Action::RunCommand(clone_command(req))),
        Phase::AtTransfer => Some(Action::RunCommand(transfer_command(req))),
        Phase::AtCleanup => Some(Action::RemoveDirectory(bare_dir_name(req.project.as_str()))),
        Phase::AtPush => Some(Action::RunCommand(push_command(req))),
        Phase::Done => None,
        Phase::Failed(_) => None,
    }
}

/// The process exit status for a finished run: 0 on success, 1 otherwise.
pub fn exit_code(p: &Phase) -> (r: i32)
    requires
        is_terminal(*p),
    ensures
        r == spec_exit_code(*p),
{
    match p {
        Phase::Done => 0,
        _ => 1,
    }
}

impl DeployError {
    /// The one-line diagnostic for this error.
    pub fn message(&self) -> (r: String)
        ensures
            r@ == spec_message(*self),
    {
        match self {
            DeployError::Usage => String::from_str(
                "Error: Use this tool from the parent directory.",
            ),
            DeployError::CloneFailed => String::from_str("Error: Failed to clone repository."),
            DeployError::TransferFailed => String::from_str(
                "Error: Failed to copy repository to server.",
            ),
            DeployError::CleanupFailed => String::from_str(
                "Error: Failed to remove local repository",
            ),
            DeployError::PushFailed => String::from_str(
                "Error: Failed to add remote origin or push to server.",
            ),
        }
    }
}

/// A run that has ended attempts nothing more and stays where it is,
/// however many further outcomes are offered.
proof fn lemma_terminal_absorbs(p: Phase, outcomes: Seq<bool>)
    requires
        is_terminal(p),
    ensures
        spec_run(p, outcomes) == p,
        spec_steps(p, outcomes) == Seq::<Step>::empty(),
    decreases outcomes.len(),
{
    if outcomes.len() > 0 {
        lemma_terminal_absorbs(spec_advance(p, outcomes[0]), outcomes.drop_first());
    }
}

/// The usage guard acts alone and at once: when the project argument names
/// the current directory, the run starts failed with the usage error,
/// attempts no step at all — so it touches neither the filesystem nor the
/// network — and exits with status 1, whatever the outside tools would have
/// answered.
pub proof fn lemma_usage_guard_runs_nothing(req: DeploymentRequest, outcomes: Seq<bool>)
    requires
        req.names_current_dir(),
    ensures
        spec_start(req) == Phase::Failed(DeployError::Usage),
        spec_steps(spec_start(req), outcomes) == Seq::<Step>::empty(),
        spec_run(spec_start(req), outcomes) == Phase::Failed(DeployError::Usage),
        spec_exit_code(spec_run(spec_start(req), outcomes)) == 1,
{
    lemma_terminal_absorbs(Phase::Failed(DeployError::Usage), outcomes);
}

/// A clone failure aborts the run at once: only the bare-clone step was
/// attempted — no remote copy, no cleanup, no push — the run ends in the
/// clone error, and the exit status is 1.
pub proof fn lemma_clone_failure_stops_run(req: DeploymentRequest, outcomes: Seq<bool>)
    requires
        !req.names_current_dir(),
        outcomes.len() >= 1,
        !outcomes[0],
    ensures
        spec_steps(spec_start(req), outcomes) == seq![Step::BareClone],
        spec_run(spec_start(req), outcomes) == Phase::Failed(DeployError::CloneFailed),
        spec_exit_code(spec_run(spec_start(req), outcomes)) == 1,
{
    lemma_terminal_absorbs(Phase::Failed(DeployError::CloneFailed), outcomes.drop_first());
    assert(spec_steps(spec_start(req), outcomes) =~= seq![Step::BareClone]);
}

/// A transfer failure leaves the local bare clone in place: the run attempts
/// exactly the bare clone and the transfer, never the cleanup that would
/// remove the local copy (and never the push), ends in the transfer error,
/// and exits with status 1.
pub proof fn lemma_transfer_failure_skips_cleanup(req: DeploymentRequest, outcomes: Seq<bool>)
    requires
        !req.names_current_dir(),
        outcomes.len() >= 2,
        outcomes[0],
        !outcomes[1],
    ensures
        spec_steps(spec_start(req), outcomes) == seq![Step::BareClone, Step::Transfer],
        !spec_steps(spec_start(req), outcomes).contains(Step::Cleanup),
        spec_run(spec_start(req), outcomes) == Phase::Failed(DeployError::TransferFailed),
        spec_exit_code(spec_run(spec_start(req), outcomes)) == 1,
{
    let rest = outcomes.drop_first();
    assert(rest[0] == outcomes[1]);
    assert(spec_run(spec_start(req), outcomes) == spec_run(Phase::AtTransfer, rest));
    assert(spec_run(Phase::AtTransfer, rest) == spec_run(
        Phase::Failed(DeployError::TransferFailed),
        rest.drop_first(),
    ));
    assert(spec_steps(spec_start(req), outcomes) == seq![Step::BareClone] + spec_steps(
        Phase::AtTransfer,
        rest,
    ));
    assert(spec_steps(Phase::AtTransfer, rest) == seq![Step::Transfer] + spec_steps(
        Phase::Failed(DeployError::TransferFailed),
        rest.drop_first(),
    ));
    lemma_terminal_absorbs(Phase::Failed(DeployError::TransferFailed), rest.drop_first());
    assert(spec_steps(spec_start(req), outcomes) =~= seq![Step::BareClone, Step::Transfer]);
    assert(!spec_steps(spec_start(req), outcomes).contains(Step::Cleanup));
}

/// A run whose four steps all succeed attempts exactly the four steps, in
/// order — bare clone, transfer, cleanup, push — ends `Done`, and exits
/// with status 0.
pub proof fn lemma_success_runs_all_steps(req: DeploymentRequest, outcomes: Seq<bool>)
    requires
        !req.names_current_dir(),
        outcomes.len() >= 4,
        outcomes[0],
        outcomes[1],
        outcomes[2],
        outcomes[3],
    ensures
        spec_steps(spec_start(req), outcomes) == seq![
            Step::BareClone,
            Step::Transfer,
            Step::Cleanup,
            Step::Push,
        ],
        spec_run(spec_start(req), outcomes) == Phase::Done,
        spec_exit_code(spec_run(spec_start(req), outcomes)) == 0,
{
    let o1 = outcomes.drop_first();
    let o2 = o1.drop_first();
    let o3 = o2.drop_first();
    let o4 = o3.drop_first();
    assert(o1[0] == outcomes[1]);
    assert(o2[0] == outcomes[2]);
    assert(o3[0] == outcomes[3]);
    assert(spec_run(spec_start(req), outcomes) == spec_run(Phase::AtTransfer, o1));
    assert(spec_run(Phase::AtTransfer, o1) == spec_run(Phase::AtCleanup, o2));
    assert(spec_run(Phase::AtCleanup, o2) == spec_run(Phase::AtPush, o3));
    assert(spec_run(Phase::AtPush, o3) == spec_run(Phase::Done, o4));
    assert(spec_steps(spec_start(req), outcomes) == seq![Step::BareClone] + spec_steps(
        Phase::AtTransfer,
        o1,
    ));
    assert(spec_steps(Phase::AtTransfer, o1) == seq![Step::Transfer] + spec_steps(
        Phase::AtCleanup,
        o2,
    ));
    assert(spec_steps(Phase::AtCleanup, o2) == seq![Step::Cleanup] + spec_steps(
        Phase::AtPush,
        o3,
    ));
    assert(spec_steps(Phase::AtPush, o3) == seq![Step::Push] + spec_steps(Phase::Done, o4));
    lemma_terminal_absorbs(Phase::Done, o4);
    assert(spec_steps(spec_start(req), outcomes) =~= seq![
        Step::BareClone,
        Step::Transfer,
        Step::Cleanup,
        Step::Push,
    ]);
}

} // verus!
