//! The value types a copy request is made of: the platform family, the three
//! user intents, and the two endpoint directories.

use vstd::prelude::*;

verus! {

/// The platform family that selects which external copy tool is driven and
/// which argument grammar it expects. Exactly two families are supported;
/// the caller picks one at startup from the host operating system.
#[derive(Clone, Copy, Debug, PartialEq, Eq, Structural)]
pub enum Platform {
    /// Unix-like hosts: the `rsync` grammar (flag cluster, then source and
    /// target as the final two positional arguments).
    Posix,
    /// Windows hosts: the `ROBOCOPY` grammar (source and rewritten target
    /// first, then switches).
    Windows,
}

/// The three orthogonal user intents that drive flag selection. Immutable
/// once constructed for one invocation.
#[derive(Clone, Copy, Debug, PartialEq, Eq, Structural)]
pub struct CopyOptions {
    /// Carry file ownership, timestamps and permissions over
    /// (`-a` on POSIX, `/COPYALL` on Windows).
    pub preserve_metadata: bool,
    /// Remove files present at the target but absent at the source, turning
    /// the copy into a one-way sync (`--delete-during` on POSIX, `/PURGE` on
    /// Windows).
    pub mirror_delete: bool,
    /// Judge file equality by content checksum rather than size and
    /// modification time (`--checksum` on POSIX). The Windows tool has no
    /// checksum mode, so there this intent is deliberately ignored.
    pub validate_content: bool,
}

/// The source and target directories of one copy request. Both must satisfy
/// [`crate::invoker::is_existing_directory`] at invocation time; the check is
/// the caller's duty and is made before any command is resolved.
#[derive(Debug)]
pub struct CopyEndpoints {
    /// Directory whose contents are copied.
    pub source: String,
    /// Directory the copy lands in; the resolved command makes the source
    /// directory appear as a subdirectory beneath it on both platforms.
    pub target: String,
}

} // verus!
