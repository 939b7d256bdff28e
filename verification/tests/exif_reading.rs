use immich_exif_tool::civil::CivilDateTime;
use immich_exif_tool::exif::datetime::{ExifDateTime, InvalidExifDateTime};
use immich_exif_tool::exif::exiftool::{asset_exif_from, command_lines, is_ready_line};
use immich_exif_tool::exif::GPS;

fn civil(year: i16, month: i8, day: i8, hour: i8, minute: i8, second: i8) -> CivilDateTime {
    CivilDateTime { year, month, day, hour, minute, second, subsec_nanosecond: 0 }
}

#[test]
fn parse_std_with_offset() {
    let d = ExifDateTime::parse_std("2024:07:11 01:14:00+02:00").unwrap();
    assert_eq!(d.datetime, civil(2024, 7, 11, 1, 14, 0));
    assert_eq!(d.offset, Some(7200));
    assert!(d.was_std);
}

#[test]
fn parse_std_without_offset() {
    let d = ExifDateTime::parse_std("2024:07:11 01:14:00").unwrap();
    assert_eq!(d.datetime, civil(2024, 7, 11, 1, 14, 0));
    assert_eq!(d.offset, None);
    assert!(d.was_std);
}

#[test]
fn parse_std_rejects_other_formats() {
    assert_eq!(ExifDateTime::parse_std("2024-07-11T01:14:00"), None);
    assert_eq!(ExifDateTime::try_parse_std("not a date"), Ok(None));
}

#[test]
fn try_parse_std_reports_impossible_dates() {
    assert_eq!(ExifDateTime::try_parse_std("2024:02:30 10:00:00"), Err(InvalidExifDateTime));
    assert_eq!(ExifDateTime::try_parse_std("2024:02:29 10:00:00").unwrap().unwrap().datetime, civil(2024, 2, 29, 10, 0, 0));
}

#[test]
fn formats_round_trip() {
    for text in ["2024:07:11 01:14:00+02:00", "2024:07:11 01:14:00", "1999:12:31 23:59:59-05:30"] {
        let d = ExifDateTime::parse_std(text).unwrap();
        assert_eq!(d.fmt_datetime().unwrap(), text);
        assert_eq!(d.to_string(), format!("{text}\n"));
    }
}

#[test]
fn nonstd_keeps_fields() {
    let d = ExifDateTime::nonstd(civil(2020, 1, 31, 4, 21, 49), Some(-18000));
    assert!(!d.was_std);
    assert_eq!(d.fmt_datetime().unwrap(), "2020:01:31 04:21:49-05:00");
}

#[test]
fn exiftool_command_lines() {
    let lines = command_lines(&vec!["/a/1.jpg".to_string(), "/a/2.heic".to_string()]);
    assert_eq!(
        lines,
        vec![
            "-json",
            "-n",
            "-DateTimeOriginal",
            "-GPSLatitude",
            "-GPSLongitude",
            "-Description",
            "/a/1.jpg",
            "/a/2.heic",
            "-execute",
        ]
    );
}

#[test]
fn exiftool_ready_line() {
    assert!(is_ready_line("{ready}"));
    assert!(is_ready_line("{ready}\n"));
    assert!(is_ready_line("{ready}  \r\n"));
    assert!(!is_ready_line(" {ready}"));
    assert!(!is_ready_line("{ready}x"));
    assert!(!is_ready_line("[{"));
}

#[test]
fn exiftool_record_reading() {
    let a = asset_exif_from(
        "/a/1.jpg".to_string(),
        Some("2024:07:11 01:14:00".to_string()),
        Some(1.5),
        Some(2.5),
        Some("Beach".to_string()),
    )
    .ok()
    .unwrap();
    assert_eq!(a.source_file, "/a/1.jpg");
    let (d, raw) = a.date_time.unwrap();
    assert_eq!(d.datetime, civil(2024, 7, 11, 1, 14, 0));
    assert_eq!(raw, "2024:07:11 01:14:00");
    let g: GPS<f64> = a.gps.unwrap();
    assert_eq!((g.latitude, g.longitude), (1.5, 2.5));
    assert_eq!(a.description.as_deref(), Some("Beach"));
}

#[test]
fn exiftool_record_drops_other_date_formats_and_half_positions() {
    let a = asset_exif_from("/a/1.jpg".to_string(), Some("July 2024".to_string()), Some(1.5), None, None)
        .ok()
        .unwrap();
    assert!(a.date_time.is_none());
    assert!(a.gps.is_none());
}

#[test]
fn exiftool_record_rejects_impossible_dates() {
    let r = asset_exif_from::<f64>("/a/1.jpg".to_string(), Some("2024:02:30 10:00:00".to_string()), None, None, None);
    assert!(matches!(r, Err(InvalidExifDateTime)));
}

#[test]
fn gps_needs_both_coordinates() {
    assert!(GPS::from_opts(Some(1.0), Some(2.0)).is_some());
    assert!(GPS::<f64>::from_opts(None, Some(2.0)).is_none());
    assert!(GPS::<f64>::from_opts(Some(1.0), None).is_none());
}
