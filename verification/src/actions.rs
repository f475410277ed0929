//! The fixed set of editor actions: five named automation routines, each
//! referenced by the absolute path of its definition file under the actions
//! directory.

use vstd::prelude::*;
use crate::paths::join_path;
use crate::paths::joined;
use crate::paths::lemma_normalized_no_backslash;
use crate::paths::normalize_separators;
use crate::paths::normalized;

verus! {

/// The five action paths as text, in their fixed order.
#[verifier::ext_equal]
pub ghost struct ActionPathsView {
    pub vecto_texte: Seq<char>,
    pub vecto_contour: Seq<char>,
    pub offset: Seq<char>,
    pub pathfinder_union: Seq<char>,
    pub cut_contour: Seq<char>,
}

/// A fixed ordered mapping of the five named actions to file paths,
/// separator-normalized to forward slashes.
pub struct ActionPathSet {
    pub vecto_texte: String,
    pub vecto_contour: String,
    pub offset: String,
    pub pathfinder_union: String,
    pub cut_contour: String,
}

impl View for ActionPathSet {
    type V = ActionPathsView;

    open spec fn view(&self) -> ActionPathsView {
        ActionPathsView {
            vecto_texte: self.vecto_texte@,
            vecto_contour: self.vecto_contour@,
            offset: self.offset@,
            pathfinder_union: self.pathfinder_union@,
            cut_contour: self.cut_contour@,
        }
    }
}

/// The action paths an actions directory yields: each definition file joined
/// onto the directory, separators normalized.
pub open spec fn action_paths_of(actions_dir: Seq<char>) -> ActionPathsView {
    ActionPathsView {
        vecto_texte: normalized(joined(actions_dir, "Vecto_Texte.aia"@)),
        vecto_contour: normalized(joined(actions_dir, "Vecto_Contour.aia"@)),
        offset: normalized(joined(actions_dir, "OffsetSet.aia"@)),
        pathfinder_union: normalized(joined(actions_dir, "PathfinderUnion.aia"@)),
        cut_contour: normalized(joined(actions_dir, "CutContour.aia"@)),
    }
}

/// Every action path an actions directory yields is forward-slash
/// normalized: none of the five holds a backslash.
pub proof fn lemma_action_paths_normalized(actions_dir: Seq<char>)
    ensures
        forall|i: int|
            0 <= i < action_paths_of(actions_dir).vecto_texte.len() ==> action_paths_of(
                actions_dir,
            ).vecto_texte[i] != '\\',
        forall|i: int|
            0 <= i < action_paths_of(actions_dir).vecto_contour.len() ==> action_paths_of(
                actions_dir,
            ).vecto_contour[i] != '\\',
        forall|i: int|
            0 <= i < action_paths_of(actions_dir).offset.len() ==> action_paths_of(
                actions_dir,
            ).offset[i] != '\\',
        forall|i: int|
            0 <= i < action_paths_of(actions_dir).pathfinder_union.len() ==> action_paths_of(
                actions_dir,
            ).pathfinder_union[i] != '\\',
        forall|i: int|
            0 <= i < action_paths_of(actions_dir).cut_contour.len() ==> action_paths_of(
                actions_dir,
            ).cut_contour[i] != '\\',
{
    lemma_normalized_no_backslash(joined(actions_dir, "Vecto_Texte.aia"@));
    lemma_normalized_no_backslash(joined(actions_dir, "Vecto_Contour.aia"@));
    lemma_normalized_no_backslash(joined(actions_dir, "OffsetSet.aia"@));
    lemma_normalized_no_backslash(joined(actions_dir, "PathfinderUnion.aia"@));
    lemma_normalized_no_backslash(joined(actions_dir, "CutContour.aia"@));
}

impl ActionPathSet {
    /// Builds the five action paths from the actions directory.
    pub fn from_actions_dir(actions_dir: &str) -> (r: ActionPathSet)
        ensures
            r@ == action_paths_of(actions_dir@),
    {
        let vt = join_path(actions_dir, "Vecto_Texte.aia");
        let vc = join_path(actions_dir, "Vecto_Contour.aia");
        let of = join_path(actions_dir, "OffsetSet.aia");
        let pu = join_path(actions_dir, "PathfinderUnion.aia");
        let cc = join_path(actions_dir, "CutContour.aia");
        let r = ActionPathSet {
            vecto_texte: normalize_separators(vt.as_str()),
            vecto_contour: normalize_separators(vc.as_str()),
            offset: normalize_separators(of.as_str()),
            pathfinder_union: normalize_separators(pu.as_str()),
            cut_contour: normalize_separators(cc.as_str()),
        };
        proof {
            assert(r@ =~= action_paths_of(actions_dir@));
        }
        r
    }
}

} // verus!
