//! The script materializer: the preamble that assigns the merged parameter
//! object to a `params` variable, followed by the original script text
//! verbatim, plus the well-known temporary location the result is written to.

use vstd::prelude::*;
use crate::actions::ActionPathSet;
use crate::actions::ActionPathsView;
use crate::actions::action_paths_of;
use crate::params::merge_params;
use crate::params::merged_params_text;
use crate::paths::join_path;
use crate::paths::joined;

verus! {

/// The materialized script: a comment banner naming two of the action paths
/// for human debugging, the `params` assignment, then the script body
/// untouched.
pub open spec fn materialized_text(params: Seq<char>, body: Seq<char>, a: ActionPathsView) -> Seq<
    char,
> {
    "// FabRik script preamble\n// Action paths:\n// - Vecto Texte: "@ + a.vecto_texte
        + "\n// - Offset: "@ + a.offset + "\nvar params = "@ + params
        + ";\n// Original script\n"@ + body
}

/// Concatenates the preamble and the script body.
pub fn materialize_script(merged: &str, script_body: &str, actions: &ActionPathSet) -> (r: String)
    ensures
        r@ == materialized_text(merged@, script_body@, actions@),
{
    let mut r = String::from_str("// FabRik script preamble\n// Action paths:\n// - Vecto Texte: ");
    r.append(actions.vecto_texte.as_str());
    r.append("\n// - Offset: ");
    r.append(actions.offset.as_str());
    r.append("\nvar params = ");
    r.append(merged);
    r.append(";\n// Original script\n");
    r.append(script_body);
    proof {
        assert(r@ =~= materialized_text(merged@, script_body@, actions@));
    }
    r
}

/// The whole text of one materialized request: the caller's parameter text
/// merged with the action paths of the actions directory, wrapped in the
/// preamble, followed by the script body.
pub open spec fn full_script_text(raw: Seq<char>, body: Seq<char>, actions_dir: Seq<char>) -> Seq<
    char,
> {
    materialized_text(
        merged_params_text(raw, action_paths_of(actions_dir)),
        body,
        action_paths_of(actions_dir),
    )
}

/// Builds the full script to write for one request.
pub fn build_full_script(raw_params: &str, script_body: &str, actions_dir: &str) -> (r: String)
    ensures
        r@ == full_script_text(raw_params@, script_body@, actions_dir@),
{
    let actions = ActionPathSet::from_actions_dir(actions_dir);
    let merged = merge_params(raw_params, &actions);
    materialize_script(merged.as_str(), script_body, &actions)
}

/// The well-known temporary script location inside a temp directory. Every
/// invocation overwrites the same file: there is no per-request uniqueness.
pub open spec fn temp_script_path_of(temp_dir: Seq<char>) -> Seq<char> {
    joined(temp_dir, "fabrik_temp_script.jsx"@)
}

/// The temporary script path under the given temp directory.
pub fn temp_script_path(temp_dir: &str) -> (r: String)
    ensures
        r@ == temp_script_path_of(temp_dir@),
{
    join_path(temp_dir, "fabrik_temp_script.jsx")
}

} // verus!
