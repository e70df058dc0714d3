//! The directories of the node.

use vstd::prelude::*;

verus! {

/// The name of the node's directory under the root directory.
pub const DEFAULT_PATH_NAME: &'static str = "schultz";

/// The directories of the node.
#[derive(Clone, Debug, PartialEq, Eq)]
pub struct Dirs {
    /// The root directory of configuration and data.
    pub root_dir: String,
}

} // verus!
