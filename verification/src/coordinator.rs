//! The dual-process coordinator: two related processes run together (the
//! tool's watch process and an external dev server), both are polled without
//! blocking, and the first one to exit decides the outcome — the sibling is
//! torn down, and the first-exited process's status becomes the result.

use vstd::prelude::*;

use crate::process::ProcStatus;

verus! {

/// Which of the two supervised processes.
#[derive(Clone, Copy, Debug, PartialEq, Eq, Structural)]
pub enum ProcId {
    /// The tool's watch process.
    TailwindWatch,
    /// The external dev-server process.
    DevServer,
}

/// The sibling of a process.
pub open spec fn other_proc(p: ProcId) -> ProcId {
    match p {
        ProcId::TailwindWatch => ProcId::DevServer,
        ProcId::DevServer => ProcId::TailwindWatch,
    }
}

/// What one round of non-blocking polls decides.
#[derive(Clone, Copy, Debug, PartialEq, Eq)]
pub enum PollDecision {
    /// Both processes still run: sleep the fixed interval and poll again.
    Continue,
    /// `exited` finished first with `status`: terminate `terminate`
    /// (best-effort, then wait for it) and report `status` as the outcome.
    FirstExit { exited: ProcId, terminate: ProcId, status: ProcStatus },
}

/// The transition rule: the watch process's exit is noticed first within a
/// round, then the dev server's; with neither exited the coordinator keeps
/// polling.
pub open spec fn poll_step_spec(
    tailwind: Option<ProcStatus>,
    dev_server: Option<ProcStatus>,
) -> PollDecision {
    match tailwind {
        Option::Some(s) => PollDecision::FirstExit {
            exited: ProcId::TailwindWatch,
            terminate: ProcId::DevServer,
            status: s,
        },
        Option::None => match dev_server {
            Option::Some(s) => PollDecision::FirstExit {
                exited: ProcId::DevServer,
                terminate: ProcId::TailwindWatch,
                status: s,
            },
            Option::None => PollDecision::Continue,
        },
    }
}

/// Decide one polling round from the two non-blocking poll results (`None`
/// means "still running").
pub fn poll_step(tailwind: Option<ProcStatus>, dev_server: Option<ProcStatus>) -> (r:
    PollDecision)
    ensures
        r == poll_step_spec(tailwind, dev_server),
{
    match tailwind {
        Option::Some(s) => PollDecision::FirstExit {
            exited: ProcId::TailwindWatch,
            terminate: ProcId::DevServer,
            status: s,
        },
        Option::None => match dev_server {
            Option::Some(s) => PollDecision::FirstExit {
                exited: ProcId::DevServer,
                terminate: ProcId::TailwindWatch,
                status: s,
            },
            Option::None => PollDecision::Continue,
        },
    }
}

/// The dev command failed: the process that exited first did so with a
/// failing status.
#[derive(Clone, Copy, Debug, PartialEq, Eq)]
pub struct DevFailure {
    /// The process whose exit decided the outcome.
    pub failed: ProcId,
    /// Its exit status.
    pub status: ProcStatus,
}

/// The coordinator's own result from the first exit.
pub open spec fn dev_result_spec(exited: ProcId, status: ProcStatus) -> Result<(), DevFailure> {
    if status.success_spec() {
        Result::Ok(())
    } else {
        Result::Err(DevFailure { failed: exited, status })
    }
}

/// Turn the first exit into the coordinator's result: success exactly when
/// the first-exited process succeeded, otherwise failure attributed to it.
pub fn dev_result(exited: ProcId, status: ProcStatus) -> (r: Result<(), DevFailure>)
    ensures
        r == dev_result_spec(exited, status),
{
    if status.success() {
        Result::Ok(())
    } else {
        Result::Err(DevFailure { failed: exited, status })
    }
}

/// Law: first death wins. Whichever process exits first decides the round:
/// the decision always tears down exactly the sibling, carries the exact
/// status of the first-exited process, and the overall result is success
/// precisely when that status was a success — otherwise a failure attributed
/// to the first-exited process. With both still running, nothing happens.
pub proof fn first_death_wins(tailwind: Option<ProcStatus>, dev_server: Option<ProcStatus>)
    ensures
        poll_step_spec(tailwind, dev_server) matches PollDecision::FirstExit {
            exited,
            terminate,
            status,
        } ==> {
            &&& terminate == other_proc(exited)
            &&& (tailwind matches Some(s) ==> exited == ProcId::TailwindWatch && status == s)
            &&& (tailwind is None ==> (dev_server matches Some(s) ==> exited == ProcId::DevServer
                && status == s))
            &&& (dev_result_spec(exited, status) is Ok <==> status.success_spec())
            &&& (!status.success_spec() ==> dev_result_spec(exited, status) == Result::<
                (),
                DevFailure,
            >::Err(DevFailure { failed: exited, status }))
        },
        tailwind is None && dev_server is None ==> poll_step_spec(tailwind, dev_server)
            == PollDecision::Continue,
{
}

} // verus!
