use snapshot_core::snapshot_config::{SnapshotConfig, SnapshotUsage};
use snapshot_core::snapshot_utils::{
    ArchiveFormat, SnapshotFrom, SnapshotVersion, DEFAULT_FULL_SNAPSHOT_ARCHIVE_INTERVAL_SLOTS,
    DEFAULT_INCREMENTAL_SNAPSHOT_ARCHIVE_INTERVAL_SLOTS,
    DEFAULT_MAX_FULL_SNAPSHOT_ARCHIVES_TO_RETAIN,
    DEFAULT_MAX_INCREMENTAL_SNAPSHOT_ARCHIVES_TO_RETAIN,
};

#[test]
fn default_configuration_loads_and_generates() {
    let config = SnapshotConfig::default();
    assert_eq!(config.usage, SnapshotUsage::LoadAndGenerate);
    assert!(config.should_generate_snapshots());
    assert_eq!(config.snapshot_from, SnapshotFrom::Archive);
}

#[test]
fn default_configuration_field_values() {
    let config = SnapshotConfig::default();
    assert_eq!(config.full_snapshot_archive_interval_slots, 25_000);
    assert_eq!(config.incremental_snapshot_archive_interval_slots, 100);
    assert_eq!(config.maximum_full_snapshot_archives_to_retain, 2);
    assert_eq!(config.maximum_incremental_snapshot_archives_to_retain, 4);
    assert_eq!(
        config.full_snapshot_archive_interval_slots,
        DEFAULT_FULL_SNAPSHOT_ARCHIVE_INTERVAL_SLOTS
    );
    assert_eq!(
        config.incremental_snapshot_archive_interval_slots,
        DEFAULT_INCREMENTAL_SNAPSHOT_ARCHIVE_INTERVAL_SLOTS
    );
    assert_eq!(
        config.maximum_full_snapshot_archives_to_retain,
        DEFAULT_MAX_FULL_SNAPSHOT_ARCHIVES_TO_RETAIN
    );
    assert_eq!(
        config.maximum_incremental_snapshot_archives_to_retain,
        DEFAULT_MAX_INCREMENTAL_SNAPSHOT_ARCHIVES_TO_RETAIN
    );
    assert_eq!(config.full_snapshot_archives_dir, "");
    assert_eq!(config.incremental_snapshot_archives_dir, "");
    assert_eq!(config.bank_snapshots_dir, "");
    assert_eq!(config.archive_format, ArchiveFormat::TarBzip2);
    assert_eq!(config.snapshot_version, SnapshotVersion::V1_2_0);
    assert_eq!(config.snapshot_version, SnapshotVersion::default());
    assert!(!config.accounts_hash_debug_verify);
    assert_eq!(config.packager_thread_niceness_adj, 0);
}

#[test]
fn load_only_configuration_never_generates() {
    let config = SnapshotConfig::new_load_only();
    assert_eq!(config.usage, SnapshotUsage::LoadOnly);
    assert!(!config.should_generate_snapshots());
    assert_eq!(config.snapshot_from, SnapshotFrom::Archive);
    assert_eq!(config.archive_format, ArchiveFormat::TarBzip2);
    assert_eq!(config.full_snapshot_archive_interval_slots, 25_000);
    assert_eq!(config.bank_snapshots_dir, "");
}

#[test]
fn load_only_differs_from_default_in_usage_alone() {
    let mut config = SnapshotConfig::new_load_only();
    assert!(config != SnapshotConfig::default());
    config.usage = SnapshotUsage::LoadAndGenerate;
    assert!(config == SnapshotConfig::default());
}

#[test]
fn directory_tree_configuration() {
    let config = SnapshotConfig::new_from_file("/snap/dir".to_string());
    assert_eq!(config.usage, SnapshotUsage::LoadOnly);
    assert_eq!(config.snapshot_from, SnapshotFrom::File);
    assert_eq!(config.archive_format, ArchiveFormat::NoArchive);
    assert_eq!(config.bank_snapshots_dir, "/snap/dir");
    assert!(!config.should_generate_snapshots());
    assert_eq!(config.full_snapshot_archives_dir, "");
    assert_eq!(config.incremental_snapshot_archives_dir, "");
    assert_eq!(config.maximum_full_snapshot_archives_to_retain, 2);
}

#[test]
fn directory_tree_configuration_with_empty_dir() {
    let config = SnapshotConfig::new_from_file(String::new());
    assert_eq!(config.bank_snapshots_dir, "");
    assert_eq!(config.snapshot_from, SnapshotFrom::File);
}

#[test]
fn constructors_are_deterministic() {
    assert!(SnapshotConfig::default() == SnapshotConfig::default());
    assert!(SnapshotConfig::new_load_only() == SnapshotConfig::new_load_only());
    assert!(
        SnapshotConfig::new_from_file("/snap/dir".to_string())
            == SnapshotConfig::new_from_file("/snap/dir".to_string())
    );
    assert!(
        SnapshotConfig::new_from_file("/snap/a".to_string())
            != SnapshotConfig::new_from_file("/snap/b".to_string())
    );
}

#[test]
fn clone_is_equal() {
    let config = SnapshotConfig::new_from_file("/snap/dir".to_string());
    assert!(config.clone() == config);
}
