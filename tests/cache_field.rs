use ccache_stats_reader::cache_field::{FLAG_ALWAYS, FLAG_NEVER, FLAG_NOZERO};
use ccache_stats_reader::{
    field_data_order, field_display_order, CacheField, CacheFieldData, CacheFieldFormat,
    FIELD_COUNT,
};

#[test]
fn test_cache_field() {
    assert_eq!(CacheField::Sentinel.as_usize(), 0);
    assert_eq!(CacheField::ZeroTimeStamp.as_usize(), 31);
}

#[test]
fn test_cache_field_data() {
    let mut d: CacheFieldData = Default::default();
    d.set_field(CacheField::Sentinel, 1);
    d.set_field(CacheField::ZeroTimeStamp, 2);
    assert_eq!(d.get_field(CacheField::Sentinel), 1);
    assert_eq!(d.get_field(CacheField::ZeroTimeStamp), 2);
}

#[test]
fn test_cache_field_orders() {
    let display = field_display_order();
    let data = field_data_order();
    match display[0] {
        CacheField::ZeroTimeStamp => {},
        _ => panic!("Display 0 is not ZeroTimeStamp"),
    }
    match data[0] {
        CacheField::Sentinel => {},
        _ => panic!("Data 0 is not None"),
    }
    match display[31] {
        CacheField::Sentinel => {},
        _ => panic!("Display 31 is not None"),
    }
    match data[31] {
        CacheField::ZeroTimeStamp => {},
        _ => panic!("Data 31 is not ZeroTimeStamp"),
    }
}

#[test]
fn orders_are_permutations_that_differ() {
    let display = field_display_order();
    let data = field_data_order();
    assert_eq!(display.len(), FIELD_COUNT);
    assert_eq!(data.len(), FIELD_COUNT);
    for (i, f) in data.iter().enumerate() {
        assert_eq!(f.as_usize(), i);
    }
    let mut seen = [false; 32];
    for f in display.iter() {
        assert!(!seen[f.as_usize()]);
        seen[f.as_usize()] = true;
    }
    assert!(seen.iter().all(|s| *s));
    assert_ne!(display, data);
    assert_eq!(display[1], CacheField::CacheHitDir);
    assert_eq!(display[28], CacheField::TotalSize);
}

#[test]
fn at_ordinal_inverts_as_usize() {
    for i in 0..FIELD_COUNT {
        assert_eq!(CacheField::at_ordinal(i).as_usize(), i);
        assert_eq!(CacheField::at_display_position(i), field_display_order()[i]);
    }
    assert_eq!(CacheField::at_ordinal(12), CacheField::TotalSize);
}

#[test]
fn metadata_is_the_same_on_every_call() {
    for f in field_data_order() {
        let a = f.metadata();
        let b = f.metadata();
        assert_eq!(a.id, b.id);
        assert_eq!(a.message, b.message);
        assert_eq!(a.format, b.format);
        assert_eq!(a.flags, b.flags);
    }
}

#[test]
fn metadata_table_entries() {
    let z = CacheField::ZeroTimeStamp.metadata();
    assert_eq!(z.id, "stats_zeroed_timestamp");
    assert_eq!(z.message, "stats zeroed");
    assert_eq!(z.format, CacheFieldFormat::TimeStamp);
    assert!(z.is_flag_always());
    assert!(!z.is_flag_never());
    let s = CacheField::TotalSize.metadata();
    assert_eq!(s.id, "cache_size_kibibyte");
    assert_eq!(s.format, CacheFieldFormat::SizeTimes1024);
    assert_eq!(s.flags, FLAG_NOZERO | FLAG_ALWAYS);
    let n = CacheField::Sentinel.metadata();
    assert_eq!(n.id, "internal_none");
    assert!(n.is_flag_never());
    assert!(!n.is_flag_always());
    let o = CacheField::ObsoleteMaxSize.metadata();
    assert_eq!(o.flags, FLAG_NOZERO | FLAG_NEVER);
    let e = CacheField::Error.metadata();
    assert_eq!(e.message, "ccache internal error");
    assert!(!e.is_flag_always() && !e.is_flag_never());
    let ids: std::collections::HashSet<&str> =
        field_data_order().iter().map(|f| f.metadata().id).collect();
    assert_eq!(ids.len(), FIELD_COUNT);
}

#[test]
fn field_data_starts_at_zero_and_keeps_other_slots() {
    let mut d = CacheFieldData::new();
    for f in field_data_order() {
        assert_eq!(d.get_field(f), 0);
    }
    d.set_field(CacheField::Link, 7);
    d.set_field(CacheField::Link, 9);
    assert_eq!(d.get_field(CacheField::Link), 9);
    assert_eq!(d.get_field(CacheField::Args), 0);
    assert_eq!(d.get_field(CacheField::NumFiles), 0);
}
