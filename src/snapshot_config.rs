//! The descriptor of how and where snapshots are produced and consumed.

use crate::snapshot_utils::{
    ArchiveFormat, SnapshotFrom, SnapshotVersion, DEFAULT_FULL_SNAPSHOT_ARCHIVE_INTERVAL_SLOTS,
    DEFAULT_INCREMENTAL_SNAPSHOT_ARCHIVE_INTERVAL_SLOTS,
    DEFAULT_MAX_FULL_SNAPSHOT_ARCHIVES_TO_RETAIN,
    DEFAULT_MAX_INCREMENTAL_SNAPSHOT_ARCHIVES_TO_RETAIN,
};
use solana_sdk::clock::Slot;
use vstd::prelude::*;
use vstd::std_specs::cmp::PartialEqSpec;

verus! {

/// Snapshot configuration and runtime information
#[derive(Clone, Debug)]
pub struct SnapshotConfig {
    /// Specifies the ways that snapshots are allowed to be used
    pub usage: SnapshotUsage,
    /// Generate a new full snapshot archive every this many slots
    pub full_snapshot_archive_interval_slots: Slot,
    /// Generate a new incremental snapshot archive every this many slots
    pub incremental_snapshot_archive_interval_slots: Slot,
    /// Path to the directory where full snapshot archives are stored
    pub full_snapshot_archives_dir: String,
    /// Path to the directory where incremental snapshot archives are stored
    pub incremental_snapshot_archives_dir: String,
    /// Path to the directory where bank snapshots are stored
    pub bank_snapshots_dir: String,
    /// The archive format to use for snapshots
    pub archive_format: ArchiveFormat,
    /// Snapshot version to generate
    pub snapshot_version: SnapshotVersion,
    /// Maximum number of full snapshot archives to retain
    pub maximum_full_snapshot_archives_to_retain: usize,
    /// Maximum number of incremental snapshot archives to retain
    /// NOTE: Incremental snapshots will only be kept for the latest full snapshot
    pub maximum_incremental_snapshot_archives_to_retain: usize,
    /// The `debug_verify` parameter to use when updating the accounts hash
    pub accounts_hash_debug_verify: bool,
    /// Thread niceness adjustment for the snapshot packager service
    pub packager_thread_niceness_adj: i8,
    /// The snapshot source
    pub snapshot_from: SnapshotFrom,
}

/// Specify the ways that snapshots are allowed to be used
#[derive(Debug, Clone, Eq, PartialEq, Structural)]
pub enum SnapshotUsage {
    /// Snapshots are only used at startup, to load the accounts and bank
    LoadOnly,
    /// Snapshots are used everywhere; both at startup (i.e. load) and steady-state (i.e.
    /// generate).  This enables taking snapshots.
    LoadAndGenerate,
}

/// The mathematical model of a [`SnapshotConfig`]: its directories as
/// character sequences, every other field as it is.
pub struct SnapshotConfigView {
    pub usage: SnapshotUsage,
    pub full_snapshot_archive_interval_slots: Slot,
    pub incremental_snapshot_archive_interval_slots: Slot,
    pub full_snapshot_archives_dir: Seq<char>,
    pub incremental_snapshot_archives_dir: Seq<char>,
    pub bank_snapshots_dir: Seq<char>,
    pub archive_format: ArchiveFormat,
    pub snapshot_version: SnapshotVersion,
    pub maximum_full_snapshot_archives_to_retain: usize,
    pub maximum_incremental_snapshot_archives_to_retain: usize,
    pub accounts_hash_debug_verify: bool,
    pub packager_thread_niceness_adj: i8,
    pub snapshot_from: SnapshotFrom,
}

impl SnapshotConfigView {
    /// Snapshots are produced during steady-state operation.
    pub open spec fn generates_snapshots(self) -> bool {
        self.usage == SnapshotUsage::LoadAndGenerate
    }
}

impl View for SnapshotConfig {
    type V = SnapshotConfigView;

    open spec fn view(&self) -> SnapshotConfigView {
        SnapshotConfigView {
            usage: self.usage,
            full_snapshot_archive_interval_slots: self.full_snapshot_archive_interval_slots,
            incremental_snapshot_archive_interval_slots:
                self.incremental_snapshot_archive_interval_slots,
            full_snapshot_archives_dir: self.full_snapshot_archives_dir@,
            incremental_snapshot_archives_dir: self.incremental_snapshot_archives_dir@,
            bank_snapshots_dir: self.bank_snapshots_dir@,
            archive_format: self.archive_format,
            snapshot_version: self.snapshot_version,
            maximum_full_snapshot_archives_to_retain: self.maximum_full_snapshot_archives_to_retain,
            maximum_incremental_snapshot_archives_to_retain:
                self.maximum_incremental_snapshot_archives_to_retain,
            accounts_hash_debug_verify: self.accounts_hash_debug_verify,
            packager_thread_niceness_adj: self.packager_thread_niceness_adj,
            snapshot_from: self.snapshot_from,
        }
    }
}

/// The default configuration: snapshots are loaded from archives and
/// generated, at the default cadences and retention counts, with every
/// directory left empty for the caller to fill in.
pub open spec fn default_config_view() -> SnapshotConfigView {
    SnapshotConfigView {
        usage: SnapshotUsage::LoadAndGenerate,
        full_snapshot_archive_interval_slots: DEFAULT_FULL_SNAPSHOT_ARCHIVE_INTERVAL_SLOTS,
        incremental_snapshot_archive_interval_slots:
            DEFAULT_INCREMENTAL_SNAPSHOT_ARCHIVE_INTERVAL_SLOTS,
        full_snapshot_archives_dir: Seq::empty(),
        incremental_snapshot_archives_dir: Seq::empty(),
        bank_snapshots_dir: Seq::empty(),
        archive_format: ArchiveFormat::TarBzip2,
        snapshot_version: SnapshotVersion::V1_2_0,
        maximum_full_snapshot_archives_to_retain: DEFAULT_MAX_FULL_SNAPSHOT_ARCHIVES_TO_RETAIN,
        maximum_incremental_snapshot_archives_to_retain:
            DEFAULT_MAX_INCREMENTAL_SNAPSHOT_ARCHIVES_TO_RETAIN,
        accounts_hash_debug_verify: false,
        packager_thread_niceness_adj: 0,
        snapshot_from: SnapshotFrom::Archive,
    }
}

/// The default configuration with snapshots only loaded at startup.
pub open spec fn load_only_config_view() -> SnapshotConfigView {
    SnapshotConfigView { usage: SnapshotUsage::LoadOnly, ..default_config_view() }
}

/// The load-only configuration that rebuilds state from the bank snapshot
/// directory `dir` rather than from archives.
pub open spec fn from_file_config_view(dir: Seq<char>) -> SnapshotConfigView {
    SnapshotConfigView {
        bank_snapshots_dir: dir,
        snapshot_from: SnapshotFrom::File,
        archive_format: ArchiveFormat::NoArchive,
        ..load_only_config_view()
    }
}

impl Default for SnapshotConfig {
    fn default() -> (r: Self)
        ensures
            r@ == default_config_view(),
    {
        Self {
            usage: SnapshotUsage::LoadAndGenerate,
            full_snapshot_archive_interval_slots: DEFAULT_FULL_SNAPSHOT_ARCHIVE_INTERVAL_SLOTS,
            incremental_snapshot_archive_interval_slots:
                DEFAULT_INCREMENTAL_SNAPSHOT_ARCHIVE_INTERVAL_SLOTS,
            full_snapshot_archives_dir: String::new(),
            incremental_snapshot_archives_dir: String::new(),
            bank_snapshots_dir: String::new(),
            archive_format: ArchiveFormat::TarBzip2,
            snapshot_version: SnapshotVersion::default(),
            maximum_full_snapshot_archives_to_retain: DEFAULT_MAX_FULL_SNAPSHOT_ARCHIVES_TO_RETAIN,
            maximum_incremental_snapshot_archives_to_retain:
                DEFAULT_MAX_INCREMENTAL_SNAPSHOT_ARCHIVES_TO_RETAIN,
            accounts_hash_debug_verify: false,
            packager_thread_niceness_adj: 0,
            snapshot_from: SnapshotFrom::Archive,
        }
    }
}

impl SnapshotConfig {
    /// A new snapshot config used for only loading at startup
    #[must_use]
    pub fn new_load_only() -> (r: Self)
        ensures
            r@ == load_only_config_view(),
    {
        Self { usage: SnapshotUsage::LoadOnly, ..Self::default() }
    }

    /// This is to construct the initial bank state from the directory files, not from the archives.
    pub fn new_from_file(bank_snapshots_dir: String) -> (r: Self)
        ensures
            r@ == from_file_config_view(bank_snapshots_dir@),
    {
        Self {
            bank_snapshots_dir,
            snapshot_from: SnapshotFrom::File,
            archive_format: ArchiveFormat::NoArchive,
            // The archive related fields are not used: with this source they
            // are left blank and must be ignored by whoever reads them.
            ..Self::new_load_only()
        }
    }

    /// Should snapshots be generated?
    #[must_use]
    pub fn should_generate_snapshots(&self) -> (r: bool)
        ensures
            r == self@.generates_snapshots(),
    {
        self.usage == SnapshotUsage::LoadAndGenerate
    }
}

/// Two configurations are equal when every field is.
impl PartialEq for SnapshotConfig {
    fn eq(&self, other: &SnapshotConfig) -> (r: bool) {
        self.usage == other.usage
            && self.full_snapshot_archive_interval_slots
            == other.full_snapshot_archive_interval_slots
            && self.incremental_snapshot_archive_interval_slots
            == other.incremental_snapshot_archive_interval_slots
            && self.full_snapshot_archives_dir == other.full_snapshot_archives_dir
            && self.incremental_snapshot_archives_dir == other.incremental_snapshot_archives_dir
            && self.bank_snapshots_dir == other.bank_snapshots_dir
            && self.archive_format == other.archive_format
            && self.snapshot_version == other.snapshot_version
            && self.maximum_full_snapshot_archives_to_retain
            == other.maximum_full_snapshot_archives_to_retain
            && self.maximum_incremental_snapshot_archives_to_retain
            == other.maximum_incremental_snapshot_archives_to_retain
            && self.accounts_hash_debug_verify == other.accounts_hash_debug_verify
            && self.packager_thread_niceness_adj == other.packager_thread_niceness_adj
            && self.snapshot_from == other.snapshot_from
    }
}

impl vstd::std_specs::cmp::PartialEqSpecImpl for SnapshotConfig {
    open spec fn obeys_eq_spec() -> bool {
        true
    }

    open spec fn eq_spec(&self, other: &SnapshotConfig) -> bool {
        self@ == other@
    }
}

/// The default configuration both loads and generates snapshots.
pub proof fn lemma_default_generates_snapshots()
    ensures
        default_config_view().usage == SnapshotUsage::LoadAndGenerate,
        default_config_view().generates_snapshots(),
{
}

/// The load-only configuration loads snapshots and never generates them.
pub proof fn lemma_load_only_never_generates()
    ensures
        load_only_config_view().usage == SnapshotUsage::LoadOnly,
        !load_only_config_view().generates_snapshots(),
{
}

/// The configuration built from a directory tree reads its state from that
/// directory, uses no archive, and only loads.
pub proof fn lemma_from_file_reads_directory(dir: Seq<char>)
    ensures
        from_file_config_view(dir).snapshot_from == SnapshotFrom::File,
        from_file_config_view(dir).archive_format == ArchiveFormat::NoArchive,
        from_file_config_view(dir).usage == SnapshotUsage::LoadOnly,
        from_file_config_view(dir).bank_snapshots_dir == dir,
        !from_file_config_view(dir).generates_snapshots(),
{
}

/// Every constructor depends on its inputs alone: two configurations built by
/// the same constructor from equal inputs are equal.
pub proof fn lemma_construction_is_deterministic(
    a: SnapshotConfig,
    b: SnapshotConfig,
    dir_a: Seq<char>,
    dir_b: Seq<char>,
)
    ensures
        a@ == default_config_view() && b@ == default_config_view() ==> a.eq_spec(&b),
        a@ == load_only_config_view() && b@ == load_only_config_view() ==> a.eq_spec(&b),
        a@ == from_file_config_view(dir_a) && b@ == from_file_config_view(dir_b) && dir_a
            == dir_b ==> a.eq_spec(&b),
{
}

} // verus!
