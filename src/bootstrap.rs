//! The one-shot install: the readiness wait that runs in place of requeueing.
use vstd::prelude::*;
use vstd::string::StringExecFns;
use crate::crd::DeploymentType;
use crate::error::{Error, ErrorView};

verus! {

/// Seconds to sleep between two readiness checks during bootstrap.
pub const BOOTSTRAP_POLL_SECS: u64 = 10;

/// Readiness checks allowed after the first one during bootstrap.
pub const BOOTSTRAP_POLL_ATTEMPTS: u32 = 60;

/// What the bootstrap wait does after one readiness check.
#[derive(Debug)]
pub enum PollStep {
    /// The workload is ready.
    Ready(DeploymentType),
    /// Sleep, then check again.
    Retry,
    /// Stop with this error.
    Fail(Error),
}

pub open spec fn gave_up_text() -> Seq<char> {
    "Deployment did not become ready"@
}

/// The step after a readiness check returned `outcome` with `attempts_left`
/// further checks allowed: a ready workload ends the wait, a workload that is not
/// ready is checked again while attempts remain, and any other error stops it.
pub fn poll_step(attempts_left: u32, outcome: Result<DeploymentType, Error>) -> (r: PollStep)
    ensures
        match outcome {
            Ok(w) => r == PollStep::Ready(w),
            Err(e) => if e is ResourceNotReady {
                if attempts_left > 0 {
                    r is Retry
                } else {
                    r is Fail && r->Fail_0@ == ErrorView::UnknownOperation(gave_up_text())
                }
            } else {
                r == PollStep::Fail(e)
            },
        },
{
    match outcome {
        Ok(w) => PollStep::Ready(w),
        Err(Error::ResourceNotReady) => {
            if attempts_left > 0 {
                PollStep::Retry
            } else {
                PollStep::Fail(
                    Error::UnknownOperation(
                        String::from_str("Deployment did not become ready"),
                    ),
                )
            }
        },
        Err(e) => PollStep::Fail(e),
    }
}

/// Arguments of the `run` command: the port the admission endpoint listens on.
#[derive(Debug, Clone, Copy, PartialEq, Eq, Structural)]
pub struct RunArgs {
    pub port: u16,
}

/// Arguments of the `bootstrap` command: the namespace to install into.
#[derive(Debug, Clone)]
pub struct BootstrapArgs {
    pub namespace: String,
}

} // verus!
