//! The process invoker's decision logic: the argument form the editor is
//! launched with, the classification of its exit, and the exact error texts
//! for the I/O steps around the launch. The launch itself is the caller's
//! side effect; every value it reports is classified here.

use vstd::prelude::*;
use crate::errors::FabrikError;

verus! {

/// The confirmation text for a successful run names the temporary script,
/// to aid debugging.
pub open spec fn confirmation_text(temp_script_path: Seq<char>) -> Seq<char> {
    "script executed successfully; temp path: "@ + temp_script_path
}

/// The `-run <script>` argument form the editor executable is launched with.
pub fn editor_args(temp_script_path: &str) -> (r: Vec<String>)
    ensures
        r@.len() == 2,
        r@[0]@ == "-run"@,
        r@[1]@ == temp_script_path@,
{
    let mut v: Vec<String> = Vec::new();
    v.push(String::from_str("-run"));
    v.push(String::from_str(temp_script_path));
    v
}

/// Classifies the editor's exit: a confirmation naming the temporary script
/// on success, the standard-error text wrapped in an execution error
/// otherwise.
pub fn classify_outcome(exit_success: bool, stderr_text: &str, temp_script_path: &str) -> (r:
    Result<String, FabrikError>)
    ensures
        r is Ok <==> exit_success,
        exit_success ==> (r matches Ok(m) && m@ == confirmation_text(temp_script_path@)),
        !exit_success ==> (r matches Err(e) && e matches FabrikError::EditorExecution(m) && m@
            == "editor error: "@ + stderr_text@),
{
    if exit_success {
        let mut m = String::from_str("script executed successfully; temp path: ");
        m.append(temp_script_path);
        Ok(m)
    } else {
        let mut m = String::from_str("editor error: ");
        m.append(stderr_text);
        Err(FabrikError::EditorExecution(m))
    }
}

/// The error for a script source that could not be read.
pub fn script_read_error(script_name: &str, script_path: &str, reason: &str) -> (e: FabrikError)
    ensures
        e matches FabrikError::Io(m) && m@ == "cannot read script "@ + script_name@ + " (path: "@
            + script_path@ + "): "@ + reason@,
{
    let mut m = String::from_str("cannot read script ");
    m.append(script_name);
    m.append(" (path: ");
    m.append(script_path);
    m.append("): ");
    m.append(reason);
    FabrikError::Io(m)
}

/// The error for a temporary script that could not be written.
pub fn temp_write_error(temp_script_path: &str, reason: &str) -> (e: FabrikError)
    ensures
        e matches FabrikError::Io(m) && m@ == "cannot write temporary script "@
            + temp_script_path@ + ": "@ + reason@,
{
    let mut m = String::from_str("cannot write temporary script ");
    m.append(temp_script_path);
    m.append(": ");
    m.append(reason);
    FabrikError::Io(m)
}

/// The error for an editor executable that could not be launched.
pub fn spawn_failure_error(reason: &str) -> (e: FabrikError)
    ensures
        e matches FabrikError::Spawn(m) && m@ == "cannot launch the editor: "@ + reason@,
{
    let mut m = String::from_str("cannot launch the editor: ");
    m.append(reason);
    FabrikError::Spawn(m)
}

} // verus!
