//! Values shared by the snapshot archive writer and loader: archive formats,
//! serialization versions, snapshot sources and the default cadences.

use solana_sdk::clock::Slot;
use vstd::prelude::*;

verus! {

/// Slots between two full snapshot archives, unless configured otherwise.
pub const DEFAULT_FULL_SNAPSHOT_ARCHIVE_INTERVAL_SLOTS: Slot = 25_000;

/// Slots between two incremental snapshot archives, unless configured otherwise.
pub const DEFAULT_INCREMENTAL_SNAPSHOT_ARCHIVE_INTERVAL_SLOTS: Slot = 100;

/// Full snapshot archives kept on disk, unless configured otherwise.
pub const DEFAULT_MAX_FULL_SNAPSHOT_ARCHIVES_TO_RETAIN: usize = 2;

/// Incremental snapshot archives kept for the latest full snapshot, unless
/// configured otherwise.
pub const DEFAULT_MAX_INCREMENTAL_SNAPSHOT_ARCHIVES_TO_RETAIN: usize = 4;

/// The encoding of a snapshot archive.
#[derive(Debug, Clone, Copy, PartialEq, Eq, Structural)]
pub enum ArchiveFormat {
    TarBzip2,
    TarGzip,
    TarZstd,
    TarLz4,
    Tar,
    /// No archive is produced or read: state lives in a directory tree.
    NoArchive,
}

/// The serialization version of a snapshot.
#[derive(Debug, Clone, Copy, PartialEq, Eq, Structural)]
pub enum SnapshotVersion {
    V1_2_0,
}

impl Default for SnapshotVersion {
    fn default() -> (r: Self)
        ensures
            r == SnapshotVersion::V1_2_0,
    {
        SnapshotVersion::V1_2_0
    }
}

/// Where the initial state is rebuilt from.
#[derive(Debug, Clone, Copy, PartialEq, Eq, Structural)]
pub enum SnapshotFrom {
    /// Compressed snapshot archives.
    Archive,
    /// An uncompressed bank snapshot directory tree.
    File,
}

} // verus!
