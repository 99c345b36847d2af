use typst_net_core::clock::today_fields;

#[test]
fn utc_offset_zero_yields_fields_in_range() {
    let f = today_fields(Some(0)).expect("UTC offset 0 is always valid");
    assert!((1..=12).contains(&f.month));
    assert!((1..=31).contains(&f.day));
    assert!(f.hour < 24);
    assert!(f.minute < 60);
    assert!(f.second < 60);
}

#[test]
fn small_offsets_are_valid() {
    assert!(today_fields(Some(2)).is_some());
    assert!(today_fields(Some(-11)).is_some());
}

#[test]
fn oversized_offset_is_rejected() {
    // 30 does not fit a whole-hour offset.
    assert!(today_fields(Some(30)).is_none());
    assert!(today_fields(Some(-30)).is_none());
}

#[test]
fn offset_is_reduced_to_a_signed_byte_first() {
    // 258 reduces to 2, a valid offset; 300 reduces to 44, an invalid one.
    assert!(today_fields(Some(258)).is_some());
    assert!(today_fields(Some(300)).is_none());
}

#[test]
fn local_time_does_not_crash() {
    // Whether the local offset can be determined depends on the machine;
    // either way the call must return, not crash.
    let _ = today_fields(None);
}
