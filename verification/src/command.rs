use vstd::prelude::*;

verus! {

/// Return code, stdout and stderr of one executed shell command.
#[derive(Debug, Clone, PartialEq, Eq)]
pub struct CommandResult {
    pub return_code: i32,
    pub stdout: String,
    pub stderr: String,
}

impl CommandResult {
    pub fn from(return_code: i32, stdout: String, stderr: String) -> (r: CommandResult)
        ensures
            r.return_code == return_code,
            r.stdout == stdout,
            r.stderr == stderr,
    {
        CommandResult { return_code, stdout, stderr }
    }

    /// A command counts as successful exactly when it exited with code zero.
    pub fn is_success(&self) -> (r: bool)
        ensures
            r == (self.return_code == 0),
    {
        self.return_code == 0
    }
}

} // verus!
