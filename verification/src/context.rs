//! How the viewer was launched.

use crate::paths::FilePath;
use vstd::prelude::*;

verus! {

/// What the host tells the viewer about its launch.
#[derive(Debug)]
pub struct LaunchContext {
    /// The working directory of the pane that launched the viewer.
    pub cwd: FilePath,
    /// The branch that the work forked from, where the host knows it.
    pub base_branch: Option<String>,
    /// The workspace that the viewer was launched from.
    pub workspace_id: Option<String>,
}

} // verus!
