//! Shell execution. Requires `shell.enabled`.
use vstd::prelude::*;

use crate::types::{host_outcome, ShellExecRequest, ShellExecResult, SkillError};

verus! {

/// Execute a shell command and return output and exit code. Requires `shell.enabled`.
pub fn shell_exec<F: FnOnce(&ShellExecRequest) -> Result<ShellExecResult, SkillError>>(req: &ShellExecRequest, host: F) -> (r: Result<ShellExecResult, SkillError>)
    requires
        call_requires(host, (req,)),
    ensures
        exists|reply: Result<ShellExecResult, SkillError>|
            #[trigger] call_ensures(host, (req,), reply)
            && r == host_outcome(reply, |x: ShellExecResult| x.error, |x: ShellExecResult| x),
{
    let resp = host(req)?;
    if !resp.error.as_str().is_empty() {
        return Err(SkillError(resp.error));
    }
    Ok(resp)
}

} // verus!
