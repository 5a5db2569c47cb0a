//! The fixed names of a repository's files and directories.

use vstd::prelude::*;
use crate::path::{join, joined};

verus! {

/// Directory of the chunk data, below the repository's root.
pub const DATA_SUBDIR: &'static str = "chunk";

/// Directory of the name index.
pub const NAME_SUBDIR: &'static str = "name";

/// Directory of the secondary index.
pub const INDEX_SUBDIR: &'static str = "index";

/// File that serialises access to the repository.
pub const LOCK_FILE: &'static str = ".lock";

/// File whose presence says that the configuration beside it is complete.
pub const VERSION_FILE: &'static str = "version";

/// File that holds the configuration.
pub const CONFIG_YML_FILE: &'static str = "config.yml";

/// The path of the lock file of the repository at `path`.
pub fn lock_file_path(path: &str) -> (lock: String)
    ensures
        lock@ == joined(path@, LOCK_FILE@),
{
    join(path, LOCK_FILE)
}

} // verus!
