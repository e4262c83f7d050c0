use vstd::prelude::*;

verus! {

/// The status the process ends with after a failure was reported. Failures
/// end like a success, so that shell callers see no difference.
pub const EXIT_STATUS: i32 = 0;

/// A decision to stop: the text to write to standard error, and the status to
/// end the process with.
#[derive(Debug)]
pub struct Exit {
    pub message: String,
    pub status: i32,
}

/// Unwrapping for command-line use: a missing value stops the tool with a
/// short message of the caller's choosing rather than a panic.
pub trait CliExit<T>: Sized {
    /// The value held, if there is one.
    spec fn held(&self) -> Option<T>;

    /// The held value, or the exit that prints `message` exactly, the
    /// underlying failure discarded.
    fn cli_outcome(self, message: &str) -> (r: Result<T, Exit>)
        ensures
            self.held() matches Some(t) ==> r == Ok::<T, Exit>(t),
            self.held() is None ==> (r matches Err(x) && x.message@ == message@
                && x.status == EXIT_STATUS),
    ;
}

impl<T, E> CliExit<T> for Result<T, E> {
    open spec fn held(&self) -> Option<T> {
        match self {
            Ok(t) => Some(*t),
            Err(_) => None,
        }
    }

    fn cli_outcome(self, message: &str) -> (r: Result<T, Exit>) {
        match self {
            Ok(t) => Ok(t),
            Err(_e) => Err(Exit { message: String::from_str(message), status: EXIT_STATUS }),
        }
    }
}

impl<T> CliExit<T> for Option<T> {
    open spec fn held(&self) -> Option<T> {
        *self
    }

    fn cli_outcome(self, message: &str) -> (r: Result<T, Exit>) {
        match self {
            Some(t) => Ok(t),
            None => Err(Exit { message: String::from_str(message), status: EXIT_STATUS }),
        }
    }
}

} // verus!
