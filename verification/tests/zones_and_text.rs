use immich_exif_tool::commands::pull::{report_rows, PulledCounts, ReportValue};
use immich_exif_tool::plan_file::{FieldStats, Summary};
use immich_exif_tool::civil::{CivilDateTime, ZonedTime};
use immich_exif_tool::immich::local::{ImmichDateError, ImmichExif};
use immich_exif_tool::plan::datetime::ParsedDateTime;
use immich_exif_tool::pull::FetchedAssets;
use immich_exif_tool::text::{ends_with, is_white_space_char, parse_i32, strip_prefix, trim, trim_end_str};

fn civil(year: i16, month: i8, day: i8, hour: i8, minute: i8, second: i8, subsec_nanosecond: i32) -> CivilDateTime {
    CivilDateTime { year, month, day, hour, minute, second, subsec_nanosecond }
}

/// Days from 1970-01-01 in the proleptic Gregorian calendar.
fn days_from_civil(year: i64, month: i64, day: i64) -> i64 {
    let y = if month <= 2 { year - 1 } else { year };
    let era = y.div_euclid(400);
    let yoe = y - era * 400;
    let mp = if month > 2 { month - 3 } else { month + 9 };
    let doy = (153 * mp + 2) / 5 + day - 1;
    let doe = yoe * 365 + yoe / 4 - yoe / 100 + doy;
    era * 146097 + doe - 719468
}

fn instant_matches(z: &ZonedTime) -> bool {
    let d = z.datetime;
    let civil_seconds = days_from_civil(d.year as i64, d.month as i64, d.day as i64) * 86400
        + d.hour as i64 * 3600
        + d.minute as i64 * 60
        + d.second as i64;
    let instant = z.timestamp_seconds as i128 * 1_000_000_000 + z.timestamp_nanos as i128;
    instant == (civil_seconds - z.offset_seconds as i64) as i128 * 1_000_000_000 + d.subsec_nanosecond as i128
}

#[test]
fn instant_before_1970_has_a_negative_fraction() {
    let p = ParsedDateTime::new("1969-12-31T23:59:59.5+00:00").unwrap();
    let z = p.zoned.unwrap();
    assert_eq!(z.timestamp_seconds, 0);
    assert_eq!(z.timestamp_nanos, -500_000_000);
    assert!(instant_matches(&z));
    assert_eq!(p.civil, civil(1969, 12, 31, 23, 59, 59, 0));
}

#[test]
fn instants_are_civil_time_less_offset() {
    for text in [
        "2024:07:11 01:14:00+02:00",
        "2024-07-11T01:14:00.123-05:30",
        "1900-02-28T12:00:00+01:00",
        "Thu, 11 Jul 2024 01:14:00 +0200",
        "2024-07-11T01:14:00+02:00[Europe/Paris]",
    ] {
        let z = ParsedDateTime::new(text).unwrap().zoned.unwrap();
        assert!(instant_matches(&z), "{text}");
    }
}

#[test]
fn rfc9557_reading_keeps_written_civil_time() {
    let z = ParsedDateTime::new("2024-07-11T01:14:00+02:00[Europe/Paris]").unwrap().zoned.unwrap();
    assert_eq!(z.datetime, civil(2024, 7, 11, 1, 14, 0, 0));
    assert_eq!(z.offset_seconds, 7200);
}

#[test]
fn reading_with_given_rfc9557_result() {
    let z = ZonedTime {
        datetime: civil(2024, 7, 11, 1, 14, 0, 0),
        offset_seconds: 7200,
        timestamp_seconds: 1_720_653_240,
        timestamp_nanos: 0,
    };
    let p = ParsedDateTime::reading_with(" 2024-07-11T01:14:00+02:00[Europe/Paris] ", Some(z)).unwrap();
    assert_eq!(p.zoned, Some(z));
    assert!(!p.is_exif);
    let exif = ParsedDateTime::reading_with("2024:07:11 01:14:00", Some(z)).unwrap();
    assert!(exif.is_exif);
    assert_eq!(exif.zoned, None);
    assert!(ParsedDateTime::reading_with("not a date", None).is_none());
}

#[test]
fn trimming_does_not_change_a_reading() {
    let a = ParsedDateTime::new(" \t2024:07:11 01:14:00\n").unwrap();
    let b = ParsedDateTime::new(trim(" \t2024:07:11 01:14:00\n")).unwrap();
    assert!(a == b);
    assert_eq!(a.civil, b.civil);
}

fn exif(dt: &str, tz: Option<&str>) -> ImmichExif<f64> {
    ImmichExif {
        date_time_original: Some(dt.to_string()),
        time_zone: tz.map(String::from),
        latitude: None,
        longitude: None,
        description: None,
    }
}

#[test]
fn zone_query_asks_for_named_zones_only() {
    let (dt, tz) = exif("2020-01-31T04:21:49.5+00:00", Some("America/Los_Angeles")).zone_query().unwrap();
    assert_eq!(dt, civil(2020, 1, 31, 4, 21, 49, 500_000_000));
    assert_eq!(tz, "America/Los_Angeles");
    assert!(exif("2020-01-31T04:21:49+00:00", Some("UTC-5")).zone_query().is_none());
    assert!(exif("2020-01-31T04:21:49+00:00", None).zone_query().is_none());
    assert!(exif("2020-01-31T04:21:49+01:00", Some("Europe/Paris")).zone_query().is_none());
    assert!(exif("2020-01-31", Some("Europe/Paris")).zone_query().is_none());
    assert!(exif("garbage", Some("Europe/Paris")).zone_query().is_none());
}

#[test]
fn date_time_with_a_given_zone_offset() {
    let e = exif("2020-01-31T04:21:49+00:00", Some("America/Los_Angeles"));
    let d = e.date_time_with_zone_offset(Ok(-28800)).ok().unwrap().unwrap();
    assert_eq!(d.datetime, civil(2020, 1, 31, 4, 21, 49, 0));
    assert_eq!(d.offset, Some(-28800));
    let utc = exif("2020-01-31T04:21:49+00:00", Some("UTC+3"));
    assert_eq!(utc.date_time_with_zone_offset(Ok(-28800)).ok().unwrap().unwrap().offset, Some(10800));
    let lookup_failed = "x".parse::<jiff::civil::DateTime>().map(|_| 0);
    assert!(matches!(e.date_time_with_zone_offset(lookup_failed), Err(ImmichDateError::TimeZone(_))));
}

#[test]
fn folder_assets_outside_the_library_count_as_errors() {
    let mut f = FetchedAssets::<u32>::new();
    assert!(f.take_folder_asset("/lib/a.jpg", "/lib/", 1));
    assert!(!f.take_folder_asset("/other/b.jpg", "/lib/", 2));
    assert_eq!(f.errors, 1);
    assert_eq!(f.assets.len(), 1);
    assert_eq!(f.assets.get("a.jpg"), Some(&1));
}

#[test]
fn string_functions() {
    assert_eq!(trim("  x y \n"), "x y");
    assert_eq!(trim("\u{3000}\u{a0}é\u{2009}"), "é");
    assert_eq!(trim(" \t "), "");
    assert_eq!(trim_end_str("{ready} \r\n"), "{ready}");
    assert_eq!(trim_end_str("  a"), "  a");
    assert!(is_white_space_char('\u{85}'));
    assert!(!is_white_space_char('\u{1c}'));
    assert_eq!(strip_prefix("/a/b", "/a/"), Some("b"));
    assert_eq!(strip_prefix("/a/b", "/a/b"), Some(""));
    assert_eq!(strip_prefix("/a", "/a/b"), None);
    assert_eq!(strip_prefix("/ä/b", "/ä"), Some("/b"));
    assert!(ends_with("x.xmp", ".xmp"));
    assert!(!ends_with("xmp", ".xmp"));
    assert!(ends_with("é", ""));
}

#[test]
fn integer_parsing_matches_std() {
    for text in ["+5", "-12", "0", "-0", "2147483647", "-2147483648", "2147483648", "-2147483649", "", "+", "-", "5h", "99999999999", "１"] {
        assert_eq!(parse_i32(text), text.parse::<i32>().ok(), "{text}");
    }
}

#[test]
fn text_without_annotation_gets_no_zone_lookup() {
    let p = ParsedDateTime::reading_with("2024-07-11T01:14:00+02:00", None).unwrap();
    let q = ParsedDateTime::new("2024-07-11T01:14:00+02:00").unwrap();
    assert!(p == q);
    assert_eq!(p.zoned, q.zoned);
}

#[test]
fn pull_report_rows() {
    let counts = PulledCounts {
        assets: 10,
        albums: 2,
        users: 1,
        tags: 3,
        people: 4,
        stacks: 0,
        map_markers: 5,
        asset_errors: 1,
        album_errors: 2,
    };
    let rows = report_rows(Some("v1.2.3"), &counts);
    let labels: Vec<&str> = rows.iter().map(|(l, _)| l.as_str()).collect();
    assert_eq!(labels, vec!["Server", "Assets", "Albums", "Users", "Tags", "People", "Stacks", "Map Markers", "Errors"]);
    assert!(matches!(&rows[0].1, ReportValue::Text(s) if s == "v1.2.3"));
    assert!(matches!(rows[1].1, ReportValue::Count(10)));
    assert!(matches!(rows[8].1, ReportValue::Errors(3)));
    let quiet = PulledCounts { asset_errors: 0, album_errors: 0, ..counts };
    let rows = report_rows(None, &quiet);
    assert_eq!(rows.len(), 8);
    assert!(matches!(&rows[0].1, ReportValue::Text(s) if s == "?"));
}

#[test]
fn plan_summary_rows() {
    let mut s = Summary::new();
    s.gps = FieldStats { ok: 1, fixable: 2, unfixable: 3 };
    let rows = s.table_rows();
    let labels: Vec<&str> = rows.iter().map(|(l, _)| l.as_str()).collect();
    assert_eq!(labels, vec!["Date Time", "GPS", "Description", "File Extension"]);
    assert_eq!(rows[1].1, FieldStats { ok: 1, fixable: 2, unfixable: 3 });
}
