//! The asset locator: resolves, for a development or a packaged layout, the
//! directories holding editor scripts and action definitions, and validates
//! that both exist before any script runs.

use vstd::prelude::*;
use crate::errors::FabrikError;
use crate::paths::join_path;
use crate::paths::joined;
use crate::paths::parent_dir;
use crate::paths::parent_of;
use crate::paths::sep_char;

verus! {

/// How the assets root is found: from the executable's own path in
/// development, from the host-provided resource directory when packaged.
#[derive(Clone, Copy, PartialEq, Eq, Structural, Debug)]
pub enum BuildMode {
    Development,
    Packaged,
}

/// The resolved pair of asset directories for one request.
pub struct AssetLayout {
    pub scripts_dir: String,
    pub actions_dir: String,
}

/// The assets root under a base directory.
pub open spec fn assets_root_of(base: Seq<char>) -> Seq<char> {
    joined(joined(base, "assets"@), "fabrik"@)
}

/// The development assets root: three parent directories up from the
/// executable's path, then the fixed relative subpath; nothing when any of
/// the three parents cannot be determined.
pub open spec fn dev_assets_root(exe_path: Seq<char>) -> Option<Seq<char>> {
    match parent_of(exe_path) {
        None => None,
        Some(p1) => match parent_of(p1) {
            None => None,
            Some(p2) => match parent_of(p2) {
                None => None,
                Some(p3) => Some(assets_root_of(p3)),
            },
        },
    }
}

/// Joins the fixed relative subpath onto a base directory.
fn assets_root_under(base: &str) -> (r: String)
    ensures
        r@ == assets_root_of(base@),
{
    let a = join_path(base, "assets");
    join_path(a.as_str(), "fabrik")
}

/// Resolves the assets directory for the given mode: in development by
/// walking three parents up from the executable's path, when packaged from
/// the host-provided resource directory.
pub fn resolve_assets_dir(mode: BuildMode, exe_path: &str, resource_dir: Option<&str>) -> (r:
    Result<String, FabrikError>)
    ensures
        mode is Development ==> match dev_assets_root(exe_path@) {
            Some(d) => r matches Ok(s) && s@ == d,
            None => r matches Err(e) && e matches FabrikError::PathResolution(m) && m@
                == "cannot determine a parent directory of the executable path"@,
        },
        mode is Packaged ==> match resource_dir {
            Some(rd) => r matches Ok(s) && s@ == assets_root_of(rd@),
            None => r matches Err(e) && e matches FabrikError::PathResolution(m) && m@
                == "no resource directory is available"@,
        },
{
    match mode {
        BuildMode::Development => {
            let p1 = parent_dir(exe_path);
            match p1 {
                None => Err(
                    FabrikError::PathResolution(
                        String::from_str(
                            "cannot determine a parent directory of the executable path",
                        ),
                    ),
                ),
                Some(d1) => {
                    let p2 = parent_dir(d1.as_str());
                    match p2 {
                        None => Err(
                            FabrikError::PathResolution(
                                String::from_str(
                                    "cannot determine a parent directory of the executable path",
                                ),
                            ),
                        ),
                        Some(d2) => {
                            let p3 = parent_dir(d2.as_str());
                            match p3 {
                                None => Err(
                                    FabrikError::PathResolution(
                                        String::from_str(
                                            "cannot determine a parent directory of the executable path",
                                        ),
                                    ),
                                ),
                                Some(d3) => Ok(assets_root_under(d3.as_str())),
                            }
                        },
                    }
                },
            }
        },
        BuildMode::Packaged => match resource_dir {
            None => Err(
                FabrikError::PathResolution(
                    String::from_str("no resource directory is available"),
                ),
            ),
            Some(rd) => Ok(assets_root_under(rd)),
        },
    }
}

/// The scripts and actions directories under an assets root.
pub fn asset_layout(assets_dir: &str) -> (r: AssetLayout)
    ensures
        r.scripts_dir@ == joined(assets_dir@, "scripts"@),
        r.actions_dir@ == joined(assets_dir@, "actions"@),
{
    AssetLayout {
        scripts_dir: join_path(assets_dir, "scripts"),
        actions_dir: join_path(assets_dir, "actions"),
    }
}

/// Validates that both asset directories exist on disk; the caller supplies
/// what the filesystem reported for each. The error names the first missing
/// directory and its resolved path.
pub fn check_asset_layout(
    layout: &AssetLayout,
    scripts_dir_exists: bool,
    actions_dir_exists: bool,
) -> (r: Result<(), FabrikError>)
    ensures
        r is Ok <==> (scripts_dir_exists && actions_dir_exists),
        !scripts_dir_exists ==> (r matches Err(e) && e matches FabrikError::AssetNotFound(m) && m@
            == "scripts directory not found: "@ + layout.scripts_dir@),
        scripts_dir_exists && !actions_dir_exists ==> (r matches Err(e) && e matches
            FabrikError::AssetNotFound(m) && m@ == "actions directory not found: "@
            + layout.actions_dir@),
{
    if !scripts_dir_exists {
        let mut m = String::from_str("scripts directory not found: ");
        m.append(layout.scripts_dir.as_str());
        Err(FabrikError::AssetNotFound(m))
    } else if !actions_dir_exists {
        let mut m = String::from_str("actions directory not found: ");
        m.append(layout.actions_dir.as_str());
        Err(FabrikError::AssetNotFound(m))
    } else {
        Ok(())
    }
}

/// The assets path command: the fixed relative subpath under the
/// host-provided resource directory, or a resolution error without one.
pub fn get_fabrik_assets_path(resource_dir: Option<&str>) -> (r: Result<String, FabrikError>)
    ensures
        match resource_dir {
            Some(rd) => r matches Ok(s) && s@ == assets_root_of(rd@),
            None => r matches Err(e) && e matches FabrikError::PathResolution(m) && m@
                == "no resource directory is available"@,
        },
{
    match resource_dir {
        None => Err(
            FabrikError::PathResolution(String::from_str("no resource directory is available")),
        ),
        Some(rd) => Ok(assets_root_under(rd)),
    }
}

/// Text without separators has no parent directory.
pub proof fn lemma_parent_of_separator_free(s: Seq<char>)
    requires
        forall|i: int| 0 <= i < s.len() ==> !sep_char(s[i]),
    ensures
        parent_of(s) is None,
    decreases s.len(),
{
    if s.len() > 0 {
        lemma_parent_of_separator_free(s.drop_last());
    }
}

/// The parent of a joined path whose entry name holds no separator is the
/// directory the name was joined onto.
pub proof fn lemma_parent_of_joined(dir: Seq<char>, name: Seq<char>)
    requires
        forall|i: int| 0 <= i < name.len() ==> !sep_char(name[i]),
    ensures
        parent_of(joined(dir, name)) == Some(dir),
    decreases name.len(),
{
    let s = joined(dir, name);
    if name.len() == 0 {
        assert(s.last() == '/');
        assert(s.drop_last() =~= dir);
    } else {
        assert(s.last() == name.last());
        assert(!sep_char(s.last()));
        assert(s.drop_last() =~= joined(dir, name.drop_last()));
        lemma_parent_of_joined(dir, name.drop_last());
    }
}

/// A development executable path exactly three separator-free components
/// below a root directory resolves to the assets root under that root.
pub proof fn lemma_dev_root_three_levels(root: Seq<char>, c1: Seq<char>, c2: Seq<char>, c3: Seq<char>)
    requires
        forall|i: int| 0 <= i < c1.len() ==> !sep_char(c1[i]),
        forall|i: int| 0 <= i < c2.len() ==> !sep_char(c2[i]),
        forall|i: int| 0 <= i < c3.len() ==> !sep_char(c3[i]),
    ensures
        dev_assets_root(joined(joined(joined(root, c1), c2), c3)) == Some(assets_root_of(root)),
{
    lemma_parent_of_joined(joined(joined(root, c1), c2), c3);
    lemma_parent_of_joined(joined(root, c1), c2);
    lemma_parent_of_joined(root, c1);
}

/// An executable path fewer than three levels deep: one or two separator-free
/// components yield no development assets root.
pub proof fn lemma_dev_root_too_shallow(c1: Seq<char>, c2: Seq<char>)
    requires
        forall|i: int| 0 <= i < c1.len() ==> !sep_char(c1[i]),
        forall|i: int| 0 <= i < c2.len() ==> !sep_char(c2[i]),
    ensures
        dev_assets_root(c1) is None,
        dev_assets_root(joined(c1, c2)) is None,
{
    lemma_parent_of_separator_free(c1);
    lemma_parent_of_joined(c1, c2);
}

} // verus!
