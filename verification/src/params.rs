//! The parameter merger: combines caller-supplied parameter text with the
//! five computed action paths into one object-shaped text blob. The merge is
//! a textual splice, not a parse: text that is not shaped like an object
//! passes through unchanged.

use vstd::prelude::*;
use crate::actions::ActionPathSet;
use crate::actions::ActionPathsView;
use crate::paths::ends_in_char;
use crate::paths::trim_text;
use crate::paths::trimmed;

verus! {

/// The five action key/value pairs as object-member text, in their fixed
/// order, indented as they are spliced into the parameter object.
pub open spec fn pairs_text(a: ActionPathsView) -> Seq<char> {
    "\"vectoTexteActionPath\": \""@ + a.vecto_texte + "\",\n    \"vectoContourActionPath\": \""@
        + a.vecto_contour + "\",\n    \"offsetActionPath\": \""@ + a.offset
        + "\",\n    \"pathfinderUnionActionPath\": \""@ + a.pathfinder_union
        + "\",\n    \"cutContourActionPath\": \""@ + a.cut_contour + "\""@
}

/// A parameter object holding exactly the five action keys and no others.
pub open spec fn fresh_params_text(a: ActionPathsView) -> Seq<char> {
    "{\n    "@ + pairs_text(a) + "\n}"@
}

/// The spliced object: the trimmed caller text up to its closing brace, a
/// comma, the five action pairs, then the object closed again.
pub open spec fn spliced_params_text(trimmed_caller: Seq<char>, a: ActionPathsView) -> Seq<char> {
    trimmed_caller.drop_last() + ",\n    "@ + pairs_text(a) + "\n}"@
}

/// What the merge returns: a fresh object for empty or empty-object input, a
/// splice for object-shaped input, and the input itself for anything else.
pub open spec fn merged_params_text(raw: Seq<char>, a: ActionPathsView) -> Seq<char> {
    if raw == "{}"@ || raw.len() == 0 {
        fresh_params_text(a)
    } else if trimmed(raw).len() > 0 && trimmed(raw).last() == '}' {
        spliced_params_text(trimmed(raw), a)
    } else {
        raw
    }
}

/// Whether the text is exactly the two characters of an empty object.
fn is_empty_object_text(s: &str) -> (r: bool)
    ensures
        r == (s@ == "{}"@),
{
    proof {
        reveal_strlit("{}");
    }
    let n: usize = s.unicode_len();
    if n == 2 {
        let r = s.get_char(0) == '{' && s.get_char(1) == '}';
        proof {
            if r {
                assert(s@ =~= "{}"@);
            }
        }
        r
    } else {
        false
    }
}

/// Appends the five action pairs in their fixed order.
fn append_pairs(out: &mut String, a: &ActionPathSet)
    ensures
        final(out)@ == old(out)@ + pairs_text(a@),
{
    out.append("\"vectoTexteActionPath\": \"");
    out.append(a.vecto_texte.as_str());
    out.append("\",\n    \"vectoContourActionPath\": \"");
    out.append(a.vecto_contour.as_str());
    out.append("\",\n    \"offsetActionPath\": \"");
    out.append(a.offset.as_str());
    out.append("\",\n    \"pathfinderUnionActionPath\": \"");
    out.append(a.pathfinder_union.as_str());
    out.append("\",\n    \"cutContourActionPath\": \"");
    out.append(a.cut_contour.as_str());
    out.append("\"");
    proof {
        assert(out@ =~= old(out)@ + pairs_text(a@));
    }
}

/// Builds the parameter object that holds only the five action keys.
fn build_fresh_params(a: &ActionPathSet) -> (r: String)
    ensures
        r@ == fresh_params_text(a@),
{
    let mut r = String::from_str("{\n    ");
    append_pairs(&mut r, a);
    r.append("\n}");
    proof {
        assert(r@ =~= fresh_params_text(a@));
    }
    r
}

/// Merges caller parameter text with the five action paths. The splice is
/// textual: input not shaped like an object passes through unchanged.
pub fn merge_params(raw: &str, actions: &ActionPathSet) -> (r: String)
    ensures
        r@ == merged_params_text(raw@, actions@),
{
    if is_empty_object_text(raw) || raw.unicode_len() == 0 {
        build_fresh_params(actions)
    } else {
        let t = trim_text(raw);
        if ends_in_char(t.as_str(), '}') {
            let n: usize = t.as_str().unicode_len();
            let head = t.as_str().substring_char(0, n - 1);
            let mut r = String::from_str(head);
            r.append(",\n    ");
            append_pairs(&mut r, actions);
            r.append("\n}");
            proof {
                assert(head@ =~= trimmed(raw@).drop_last());
                assert(r@ =~= spliced_params_text(trimmed(raw@), actions@));
            }
            r
        } else {
            String::from_str(raw)
        }
    }
}

/// Merging empty text or empty-object text yields exactly the five action
/// keys and no others: the result is precisely the fresh object text.
pub proof fn lemma_merge_empty_params(raw: Seq<char>, a: ActionPathsView)
    requires
        raw == "{}"@ || raw.len() == 0,
    ensures
        merged_params_text(raw, a) == fresh_params_text(a),
{
}

/// Input not shaped like an object passes through the merge unchanged, and
/// merging the result again still returns it unchanged.
pub proof fn lemma_merge_malformed_passthrough(raw: Seq<char>, a: ActionPathsView)
    requires
        raw != "{}"@,
        raw.len() > 0,
        !(trimmed(raw).len() > 0 && trimmed(raw).last() == '}'),
    ensures
        merged_params_text(raw, a) == raw,
        merged_params_text(merged_params_text(raw, a), a) == merged_params_text(raw, a),
{
}

/// Merging object-shaped text keeps the trimmed caller text, minus its
/// closing brace, as an unchanged prefix, appends the five action pairs in
/// their fixed order, and closes the object again; the result ends in a
/// closing brace.
pub proof fn lemma_merge_object_shaped(raw: Seq<char>, a: ActionPathsView)
    requires
        raw != "{}"@,
        raw.len() > 0,
        trimmed(raw).len() > 0,
        trimmed(raw).last() == '}',
    ensures
        merged_params_text(raw, a) == trimmed(raw).drop_last() + ",\n    "@ + pairs_text(a)
            + "\n}"@,
        forall|i: int|
            0 <= i < trimmed(raw).len() - 1 ==> merged_params_text(raw, a)[i] == trimmed(raw)[i],
        merged_params_text(raw, a).len() > 0,
        merged_params_text(raw, a).last() == '}',
{
    reveal_strlit("\n}");
    let m = merged_params_text(raw, a);
    assert(m == spliced_params_text(trimmed(raw), a));
    assert(m.last() == '}');
    assert forall|i: int| 0 <= i < trimmed(raw).len() - 1 implies m[i] == trimmed(raw)[i] by {
        assert(m[i] == trimmed(raw).drop_last()[i]);
    }
}

} // verus!
