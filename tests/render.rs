use ccache_stats_reader::{
    field_display_order, CacheDir, CacheField, CacheFieldCollection, CacheFieldData, CacheLeaf,
    FIELD_COUNT,
};

fn sample() -> CacheLeaf {
    let mut d = CacheFieldData::new();
    d.set_field(CacheField::CacheHitDir, 12);
    d.set_field(CacheField::Error, 3);
    d.set_field(CacheField::TotalSize, 15_000);
    d.set_field(CacheField::ObsoleteMaxFiles, 99);
    d.set_field(CacheField::Sentinel, 1);
    CacheLeaf::new(d, 1_600_000_000)
}

#[test]
fn iter_follows_display_order() {
    let leaf = sample();
    let pairs = leaf.iter();
    assert_eq!(pairs.len(), FIELD_COUNT);
    assert_eq!(pairs[0], (CacheField::ZeroTimeStamp, 0));
    assert_eq!(pairs[1], (CacheField::CacheHitDir, 12));
    assert_eq!(pairs[31], (CacheField::Sentinel, 1));
    for (i, (f, v)) in pairs.iter().enumerate() {
        assert_eq!(*f, field_display_order()[i]);
        assert_eq!(*v, leaf.get_field(*f));
    }
}

#[test]
fn raw_rendering_keeps_zeros_and_skips_never_shown() {
    let leaf = sample();
    let text = leaf.raw_text();
    let lines: Vec<&str> = text.lines().collect();
    assert_eq!(lines[0], "stats_updated_timestamp\t1600000000");
    assert_eq!(lines[1], "stats_zeroed_timestamp\t0");
    assert_eq!(lines[2], "direct_cache_hit\t12");
    assert!(lines.contains(&"multiple_source_files\t0"));
    assert!(lines.contains(&"internal_error\t3"));
    assert!(lines.contains(&"cache_size_kibibyte\t15000"));
    assert!(!text.contains("obsolete_max_files"));
    assert!(!text.contains("obsolete_max_size"));
    assert!(!text.contains("internal_none"));
    assert_eq!(lines.len(), 1 + 29);
    assert!(text.ends_with('\n'));
    let mut expected = String::from("stats_updated_timestamp\t1600000000\n");
    for f in field_display_order() {
        let m = f.metadata();
        if !m.is_flag_never() {
            expected.push_str(&format!("{}\t{}\n", m.id, leaf.get_field(f)));
        }
    }
    assert_eq!(text, expected);
}

#[test]
fn pretty_rendering_with_given_clock_texts() {
    let leaf = sample();
    let locals: Vec<Option<String>> = vec![None; FIELD_COUNT];
    let text = leaf.pretty_text_with_local(Some("updated-at".to_string()), &locals);
    let mut expected = format!("{:<30} {:>9}\n", "stats updated", "updated-at");
    for (label, value) in [
        ("stats zeroed", "0 (ts)"),
        ("cache hit (direct)", "12"),
        ("cache hit (preprocessed)", "0"),
        ("cache miss", "0"),
        ("called for link", "0"),
        ("called for preprocessing", "0"),
        ("ccache internal error", "3"),
        ("cleanups performed", "0"),
        ("files in cache", "0"),
        ("cache size", "14.65 Mb"),
    ] {
        expected.push_str(&format!("{:<30} {:>9}\n", label, value));
    }
    assert_eq!(text, expected);
}

#[test]
fn pretty_rendering_uses_the_clock_text_of_each_timestamp_field() {
    let mut d = CacheFieldData::new();
    d.set_field(CacheField::ZeroTimeStamp, 42);
    let leaf = CacheLeaf::new(d, u64::MAX);
    let mut locals: Vec<Option<String>> = vec![None; FIELD_COUNT];
    locals[0] = Some("zeroed-at".to_string());
    let text = leaf.pretty_text_with_local(Some("ignored".to_string()), &locals);
    let lines: Vec<&str> = text.lines().collect();
    assert_eq!(lines[0], format!("{:<30} {:>9}", "stats updated", "18446744073709551615 (ts)"));
    assert_eq!(lines[1], format!("{:<30} {:>9}", "stats zeroed", "zeroed-at"));
}

#[test]
fn pretty_rendering_with_the_local_clock() {
    let leaf = sample();
    let text = leaf.pretty_text();
    let lines: Vec<&str> = text.lines().collect();
    assert_eq!(lines.len(), 11);
    assert!(lines[0].starts_with("stats updated"));
    assert!(lines[0].contains("2020"), "{}", lines[0]);
    assert_eq!(lines[2], format!("{:<30} {:>9}", "cache hit (direct)", "12"));
    assert_eq!(lines[10], format!("{:<30} {:>9}", "cache size", "14.65 Mb"));
}

#[test]
fn long_labels_are_not_cut() {
    let mut d = CacheFieldData::new();
    d.set_field(CacheField::EmptyOutput, 1);
    let dir_leaf = CacheLeaf::new(d, 0);
    let mut dir = CacheDir::default();
    dir.merge_leaf(&dir_leaf);
    let text = dir.pretty_text_with_local(None, &vec![None; FIELD_COUNT]);
    assert!(text.contains(&format!("{} {:>9}\n", "compiler produced empty output", "1")));
    assert!(text.starts_with(&format!("{:<30} {:>9}\n", "stats updated", "0 (ts)")));
}
