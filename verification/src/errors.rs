//! The failure kinds of the script pipeline. Every failure is surfaced to
//! the caller as descriptive text; none aborts the process.

use vstd::prelude::*;

verus! {

/// One failed pipeline step, carrying the text shown to the caller.
#[derive(Debug)]
pub enum FabrikError {
    /// A required directory could not be determined from the runtime
    /// environment.
    PathResolution(String),
    /// A required asset directory is absent; the text names its resolved
    /// path.
    AssetNotFound(String),
    /// A script read or temp-file write failed; the text names the path and
    /// the underlying reason.
    Io(String),
    /// The editor executable could not be launched; the text carries the
    /// reported reason.
    Spawn(String),
    /// The editor ran and exited with failure; the text carries its
    /// standard-error output.
    EditorExecution(String),
}

impl FabrikError {
    /// The descriptive text the error carries.
    pub open spec fn text(&self) -> Seq<char> {
        match *self {
            FabrikError::PathResolution(ref m) => m@,
            FabrikError::AssetNotFound(ref m) => m@,
            FabrikError::Io(ref m) => m@,
            FabrikError::Spawn(ref m) => m@,
            FabrikError::EditorExecution(ref m) => m@,
        }
    }

    /// Surfaces the error as the text it carries.
    pub fn message(&self) -> (r: String)
        ensures
            r@ == self.text(),
    {
        match self {
            FabrikError::PathResolution(m) => m.clone(),
            FabrikError::AssetNotFound(m) => m.clone(),
            FabrikError::Io(m) => m.clone(),
            FabrikError::Spawn(m) => m.clone(),
            FabrikError::EditorExecution(m) => m.clone(),
        }
    }
}

} // verus!
