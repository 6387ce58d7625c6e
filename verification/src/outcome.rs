//! The process executor's decisions and data: which shell to invoke, and the
//! structured result of running the wrapped command — created once after the
//! child terminates, immutable thereafter, read by every renderer.

use vstd::prelude::*;

verus! {

/// The shell the executor invokes: the environment's override when one is
/// set, else the standard location.
pub fn resolve_shell(shell_var: Option<String>) -> (s: String)
    ensures
        match shell_var {
            Some(p) => s@ == p@,
            None => s@ == "/bin/bash"@,
        },
{
    match shell_var {
        Some(p) => p,
        None => String::from_str("/bin/bash"),
    }
}

/// What the wrapped command's run produced. `exit_code` is absent when the
/// process was terminated by a signal. The captured output is kept as raw
/// bytes; renderers decode it permissively.
pub struct ExecutionResult {
    pub success: bool,
    pub exit_code: Option<i32>,
    pub stdout: Vec<u8>,
    pub stderr: Vec<u8>,
}

impl ExecutionResult {
    /// Package the observations made on the terminated child.
    pub fn new(success: bool, exit_code: Option<i32>, stdout: Vec<u8>, stderr: Vec<u8>) -> (r:
        ExecutionResult)
        ensures
            r.success == success,
            r.exit_code == exit_code,
            r.stdout == stdout,
            r.stderr == stderr,
    {
        ExecutionResult { success, exit_code, stdout, stderr }
    }
}

} // verus!
