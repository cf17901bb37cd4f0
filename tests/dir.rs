use std::path::PathBuf;

use ccache_stats_reader::{
    CacheDir, CacheField, CacheFieldCollection, CacheFieldData, CacheLeaf, ErrorKind, LeafRead,
    SHARD_COUNT,
};

fn leaf(values: &[(CacheField, u64)], mtime: u64) -> CacheLeaf {
    let mut d = CacheFieldData::new();
    for (f, v) in values {
        d.set_field(*f, *v);
    }
    CacheLeaf::new(d, mtime)
}

#[test]
fn root_and_shard_values_add_up() {
    let mut dir = CacheDir::default();
    dir.add_leaf(LeafRead::Found(leaf(&[(CacheField::CacheHitDir, 5)], 10))).unwrap();
    dir.add_leaf(LeafRead::Found(leaf(&[(CacheField::CacheHitDir, 3)], 20))).unwrap();
    assert_eq!(dir.get_field(CacheField::CacheHitDir), 8);
    assert_eq!(dir.mtime(), 20);
}

#[test]
fn zero_timestamp_keeps_the_latest() {
    let mut dir = CacheDir::default();
    dir.add_leaf(LeafRead::Found(leaf(&[(CacheField::ZeroTimeStamp, 100)], 30))).unwrap();
    dir.add_leaf(LeafRead::Found(leaf(&[(CacheField::ZeroTimeStamp, 50)], 20))).unwrap();
    assert_eq!(dir.get_field(CacheField::ZeroTimeStamp), 100);
    assert_eq!(dir.mtime(), 30);
}

#[test]
fn merge_order_does_not_matter() {
    let a = leaf(&[(CacheField::ToCache, 2), (CacheField::ZeroTimeStamp, 7)], 3);
    let b = leaf(&[(CacheField::ToCache, 5), (CacheField::ZeroTimeStamp, 4)], 9);
    let mut x = CacheDir::default();
    x.merge_leaf(&a);
    x.merge_leaf(&b);
    let mut y = CacheDir::default();
    y.merge_leaf(&b);
    y.merge_leaf(&a);
    for f in ccache_stats_reader::field_data_order() {
        assert_eq!(x.get_field(f), y.get_field(f));
    }
    assert_eq!(x.get_field(CacheField::ToCache), 7);
    assert_eq!(x.get_field(CacheField::ZeroTimeStamp), 7);
    assert_eq!(x.mtime(), y.mtime());
}

#[test]
fn missing_files_contribute_nothing() {
    let mut dir = CacheDir::default();
    dir.add_leaf(LeafRead::Missing).unwrap();
    for i in 0..SHARD_COUNT {
        let read = if i % 2 == 0 {
            LeafRead::Found(leaf(&[(CacheField::NumFiles, 1)], i as u64))
        } else {
            LeafRead::Missing
        };
        dir.add_leaf(read).unwrap();
    }
    assert_eq!(dir.get_field(CacheField::NumFiles), 8);
    assert_eq!(dir.mtime(), 14);
}

#[test]
fn all_missing_gives_an_empty_snapshot() {
    let mut dir = CacheDir::default();
    for _ in 0..=SHARD_COUNT {
        dir.add_leaf(LeafRead::Missing).unwrap();
    }
    assert_eq!(dir.get_field(CacheField::NumFiles), 0);
    assert_eq!(dir.mtime(), 0);
}

#[test]
fn a_failure_is_handed_back_and_changes_nothing() {
    let mut dir = CacheDir::default();
    dir.add_leaf(LeafRead::Found(leaf(&[(CacheField::Link, 2)], 4))).unwrap();
    let denied = std::io::Error::new(std::io::ErrorKind::PermissionDenied, "denied");
    match dir.add_leaf(LeafRead::Failed(ErrorKind::IoError(denied))) {
        Err(ErrorKind::IoError(e)) => assert_eq!(e.kind(), std::io::ErrorKind::PermissionDenied),
        other => panic!("unexpected {:?}", other),
    }
    let bad = CacheLeaf::from_lines(PathBuf::from("/d/3/stats"), 0, &vec!["x".to_string()]).unwrap_err();
    match dir.add_leaf(LeafRead::Failed(bad)) {
        Err(ErrorKind::ParseU64Error { input_line, .. }) => assert_eq!(input_line, 0),
        other => panic!("unexpected {:?}", other),
    }
    assert_eq!(dir.get_field(CacheField::Link), 2);
    assert_eq!(dir.mtime(), 4);
}

#[test]
fn overflowing_sums_are_detected() {
    let mut dir = CacheDir::default();
    let big = leaf(&[(CacheField::TotalSize, u64::MAX)], 0);
    assert!(dir.can_merge(&big));
    dir.merge_leaf(&big);
    assert!(!dir.can_merge(&leaf(&[(CacheField::TotalSize, 1)], 0)));
    assert!(dir.can_merge(&leaf(&[(CacheField::TotalSize, 0), (CacheField::Link, 1)], 0)));
    let stamp = leaf(&[(CacheField::ZeroTimeStamp, u64::MAX)], 0);
    dir.merge_leaf(&stamp);
    assert!(dir.can_merge(&stamp));
}

#[test]
fn shard_directory_names() {
    let names: String = (0..SHARD_COUNT).map(CacheDir::shard_dir_name).collect();
    assert_eq!(names, "0123456789abcdef");
}

#[test]
fn error_conversions() {
    let e: ErrorKind = std::io::Error::new(std::io::ErrorKind::NotFound, "gone").into();
    assert!(matches!(e, ErrorKind::IoError(ref io) if io.kind() == std::io::ErrorKind::NotFound));
}
