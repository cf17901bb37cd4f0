use std::path::PathBuf;

use ccache_stats_reader::{
    field_data_order, CacheField, CacheFieldCollection, CacheFieldData, CacheLeaf, ErrorKind,
};

fn lines(text: &[&str]) -> Vec<String> {
    text.iter().map(|s| s.to_string()).collect()
}

#[test]
fn short_file_leaves_trailing_fields_zero() {
    let leaf = CacheLeaf::from_lines(PathBuf::from("/x/stats"), 77, &lines(&["1\n", "2\n", "3"])).unwrap();
    assert_eq!(leaf.get_field(CacheField::Sentinel), 1);
    assert_eq!(leaf.get_field(CacheField::StdOut), 2);
    assert_eq!(leaf.get_field(CacheField::Status), 3);
    for f in field_data_order().into_iter().skip(3) {
        assert_eq!(leaf.get_field(f), 0);
    }
    assert_eq!(leaf.mtime(), 77);
}

#[test]
fn empty_file_is_all_zero() {
    let leaf = CacheLeaf::from_lines(PathBuf::from("stats"), 0, &Vec::new()).unwrap();
    for f in field_data_order() {
        assert_eq!(leaf.get_field(f), 0);
    }
}

#[test]
fn full_file_fills_every_field_and_ignores_extra_lines() {
    let mut text: Vec<String> = (0..32).map(|i| format!("{}\r\n", i * 10)).collect();
    text.push("not a number\n".to_string());
    let leaf = CacheLeaf::from_lines(PathBuf::from("stats"), 5, &text).unwrap();
    for f in field_data_order() {
        assert_eq!(leaf.get_field(f), (f.as_usize() as u64) * 10);
    }
    assert_eq!(leaf.get_field(CacheField::ZeroTimeStamp), 310);
}

#[test]
fn non_numeric_line_is_reported_with_its_ordinal() {
    let r = CacheLeaf::from_lines(PathBuf::from("/c/stats"), 0, &lines(&["0\n", "4\n", "abc\r\n", "zz\n"]));
    match r {
        Err(ErrorKind::ParseU64Error { input_value, input_line, input_file }) => {
            assert_eq!(input_value, "abc");
            assert_eq!(input_line, 2);
            assert_eq!(input_file, PathBuf::from("/c/stats"));
        },
        other => panic!("unexpected {:?}", other),
    }
}

#[test]
fn empty_line_and_overflow_are_parse_errors() {
    match CacheLeaf::from_lines(PathBuf::from("s"), 0, &lines(&["\n"])) {
        Err(ErrorKind::ParseU64Error { input_value, input_line, .. }) => {
            assert_eq!(input_value, "");
            assert_eq!(input_line, 0);
        },
        other => panic!("unexpected {:?}", other),
    }
    match CacheLeaf::from_lines(PathBuf::from("s"), 0, &lines(&["1\n", "18446744073709551616\n"])) {
        Err(ErrorKind::ParseU64Error { input_value, input_line, .. }) => {
            assert_eq!(input_value, "18446744073709551616");
            assert_eq!(input_line, 1);
        },
        other => panic!("unexpected {:?}", other),
    }
}

#[test]
fn leaf_built_from_values() {
    let mut d = CacheFieldData::new();
    d.set_field(CacheField::Link, 4);
    let leaf = CacheLeaf::new(d, 9);
    assert_eq!(leaf.get_field(CacheField::Link), 4);
    assert_eq!(leaf.fields().get_field(CacheField::Link), 4);
    assert_eq!(leaf.mtime(), 9);
    let z = CacheLeaf::default();
    assert_eq!(z.mtime(), 0);
    assert_eq!(z.get_field(CacheField::Link), 0);
}
