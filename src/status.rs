use vstd::prelude::*;

verus! {

/// What is known of how the remote command ended.
#[derive(Debug, Clone, Copy, PartialEq, Eq, Structural)]
pub(crate) enum ExitStatusImp {
    /// The remote side reported this exit code.
    Code(u32),
    /// The channel closed without an exit-status message.
    Processing,
}

/// The terminal status of a remote command.
#[derive(Debug, Clone, Copy, PartialEq, Eq, Structural)]
pub struct ExitStatus {
    pub(crate) inner: ExitStatusImp,
}

impl View for ExitStatus {
    /// The exit code, or `None` when none was reported.
    type V = Option<u32>;

    closed spec fn view(&self) -> Option<u32> {
        match self.inner {
            ExitStatusImp::Code(c) => Some(c),
            ExitStatusImp::Processing => None,
        }
    }
}

impl ExitStatus {
    /// The status for a reported exit code, or for none.
    pub(crate) fn from_exit(exit: Option<u32>) -> (r: ExitStatus)
        ensures
            r@ == exit,
    {
        match exit {
            Some(c) => ExitStatus { inner: ExitStatusImp::Code(c) },
            None => ExitStatus { inner: ExitStatusImp::Processing },
        }
    }

    /// True exactly when the remote side reported exit code 0.
    pub fn success(&self) -> (r: bool)
        ensures
            r == (self@ == Some(0u32)),
    {
        match &self.inner {
            ExitStatusImp::Code(code) => *code == 0,
            ExitStatusImp::Processing => false,
        }
    }

    /// The reported exit code, or `None` when the channel closed without one.
    pub fn code(&self) -> (r: Option<u32>)
        ensures
            r == self@,
    {
        match &self.inner {
            ExitStatusImp::Code(code) => Some(*code),
            ExitStatusImp::Processing => None,
        }
    }
}

} // verus!
