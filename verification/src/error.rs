//! The two kinds of failure of the whole system, and the exit code that
//! stands for an outcome.

use vstd::prelude::*;
use vstd::string::StringExecFns;

verus! {

/// Why the system failed.
#[derive(Debug, Clone, PartialEq, Eq)]
pub enum ServiceError {
    /// Something went wrong before the listeners began to serve.
    Startup(String),
    /// Something went wrong after that.
    Runtime(String),
}

/// A failure as the decisions see it: its kind and its message.
pub enum ServiceFailure {
    Startup(Seq<char>),
    Runtime(Seq<char>),
}

impl View for ServiceError {
    type V = ServiceFailure;

    open spec fn view(&self) -> ServiceFailure {
        match self {
            ServiceError::Startup(message) => ServiceFailure::Startup(message@),
            ServiceError::Runtime(message) => ServiceFailure::Runtime(message@),
        }
    }
}

/// An outcome as the decisions see it.
pub open spec fn outcome_view(outcome: Result<(), ServiceError>) -> Result<(), ServiceFailure> {
    match outcome {
        Ok(()) => Ok(()),
        Err(e) => Err(e@),
    }
}

/// The exit code of a process that stops on success.
pub const EXIT_SUCCESS: i32 = 0;

/// The exit code of a process that stops on a failure.
pub const EXIT_FAILURE: i32 = 1;

/// The exit code that stands for `outcome`: zero for success, and the same
/// non-zero code for every failure.
pub fn exit_code(outcome: &Result<(), ServiceError>) -> (code: i32)
    ensures
        code == if outcome is Ok {
            EXIT_SUCCESS
        } else {
            EXIT_FAILURE
        },
{
    match outcome {
        Ok(_) => EXIT_SUCCESS,
        Err(_) => EXIT_FAILURE,
    }
}

/// A startup failure whose message is `what`, then `detail`.
pub fn startup_failure(what: &str, detail: &str) -> (e: ServiceError)
    ensures
        e@ == ServiceFailure::Startup(what@ + detail@),
{
    let mut message = what.to_owned();
    message.append(detail);
    ServiceError::Startup(message)
}

/// A runtime failure whose message is `what`, then `detail`.
pub fn runtime_failure(what: &str, detail: &str) -> (e: ServiceError)
    ensures
        e@ == ServiceFailure::Runtime(what@ + detail@),
{
    let mut message = what.to_owned();
    message.append(detail);
    ServiceError::Runtime(message)
}

} // verus!
