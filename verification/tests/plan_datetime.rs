use immich_exif_tool::plan::datetime::ParsedDateTime;

#[test]
fn parse_exif_with_offset() {
    let dt = ParsedDateTime::new("2024:07:11 01:14:00+02:00").unwrap();
    assert_eq!(dt.civil.to_string(), "2024-07-11T01:14:00");
    assert!(dt.zoned.is_some());
    assert!(dt.is_exif);
}

#[test]
fn parse_exif_no_offset() {
    let dt = ParsedDateTime::new("2024:07:11 01:14:00").unwrap();
    assert_eq!(dt.civil.to_string(), "2024-07-11T01:14:00");
    assert!(dt.zoned.is_none());
    assert!(dt.is_exif);
}

#[test]
fn parse_iso_utc_z() {
    let dt = ParsedDateTime::new("2024-07-11T01:14:00.123Z").unwrap();
    assert_eq!(dt.civil.to_string(), "2024-07-11T01:14:00");
    assert!(dt.zoned.is_some());
    assert!(!dt.is_exif);
}

#[test]
fn parse_iso_with_offset() {
    let dt = ParsedDateTime::new("2024-07-11T01:14:00+02:00").unwrap();
    assert_eq!(dt.civil.to_string(), "2024-07-11T01:14:00");
    assert!(dt.zoned.is_some());
    assert!(!dt.is_exif);
}

#[test]
fn parse_iso_no_offset() {
    let dt = ParsedDateTime::new("2024-07-11T01:14:00").unwrap();
    assert_eq!(dt.civil.to_string(), "2024-07-11T01:14:00");
    assert!(dt.zoned.is_none());
    assert!(!dt.is_exif);
}

#[test]
fn parse_iso_space_separator_with_offset() {
    let dt = ParsedDateTime::new("2024-07-11 01:14:00+02:00").unwrap();
    assert_eq!(dt.civil.to_string(), "2024-07-11T01:14:00");
    assert!(dt.zoned.is_some());
}

#[test]
fn parse_immich_formats() {
    let cases = [
        "2020-01-31T04:21:49+00:00",
        "2018-10-07T15:54:57.356+00:00",
        "2022-08-22T15:24:51+00:00",
    ];
    for input in cases {
        let dt = ParsedDateTime::new(input)
            .unwrap_or_else(|| panic!("failed to parse Immich date: {input}"));
        assert!(dt.zoned.is_some(), "expected zoned for {input}");
        assert!(!dt.is_exif, "expected non-exif for {input}");
    }
}

#[test]
fn parse_rfc9557_iana() {
    let dt = ParsedDateTime::new("2024-07-11T01:14:00-04:00[America/New_York]").unwrap();
    assert!(dt.zoned.is_some());
    assert!(!dt.is_exif);
    assert_eq!(dt.format(), "2024:07:11 01:14:00-04:00");
}

#[test]
fn parse_invalid() {
    assert!(ParsedDateTime::new("not a date").is_none());
}

#[test]
fn format_exif_with_offset() {
    let dt = ParsedDateTime::new("2024:07:11 01:14:00+02:00").unwrap();
    assert_eq!(dt.format(), "2024:07:11 01:14:00+02:00");
}

#[test]
fn format_iso_utc() {
    let dt = ParsedDateTime::new("2024-07-11T01:14:00Z").unwrap();
    assert_eq!(dt.format(), "2024:07:11 01:14:00+00:00");
}

#[test]
fn format_iso_no_offset() {
    let dt = ParsedDateTime::new("2024-07-11T01:14:00").unwrap();
    assert_eq!(dt.format(), "2024:07:11 01:14:00");
}

#[test]
fn eq_same_instant_different_offsets() {
    let a = ParsedDateTime::new("2024:07:11 01:14:00+02:00").unwrap();
    let b = ParsedDateTime::new("2024:07:11 01:14:00+02:00").unwrap();
    let c = ParsedDateTime::new("2024:07:11 03:14:00+04:00").unwrap();
    assert_eq!(a, b);
    assert_eq!(a, c);
}

#[test]
fn eq_both_unzoned() {
    let a = ParsedDateTime::new("2024:07:11 01:14:00").unwrap();
    let b = ParsedDateTime::new("2024-07-11T01:14:00").unwrap();
    assert_eq!(a, b);
}

#[test]
fn ne_zoned_vs_unzoned() {
    let zoned = ParsedDateTime::new("2024:07:11 01:14:00+02:00").unwrap();
    let unzoned = ParsedDateTime::new("2024:07:11 01:14:00").unwrap();
    assert_ne!(zoned, unzoned);
}
