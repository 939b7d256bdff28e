use immich_exif_tool::civil::CivilDateTime;
use immich_exif_tool::exif::datetime::ExifDateTime;
use immich_exif_tool::immich::local::{ImmichDateError, ImmichExif};

fn parse_raw(dt: Option<&str>, tz: Option<&str>) -> Result<Option<ExifDateTime>, ImmichDateError> {
    ImmichExif::<f64> {
        date_time_original: dt.map(String::from),
        time_zone: tz.map(String::from),
        latitude: None,
        longitude: None,
        description: None,
    }
    .date_time()
}

fn parse(dt: &str, tz: &str) -> ExifDateTime {
    match parse_raw(Some(dt), Some(tz)) {
        Ok(Some(d)) => d,
        _ => panic!("failed to read {dt} in {tz}"),
    }
}

fn parse_ntz(dt: &str) -> ExifDateTime {
    match parse_raw(Some(dt), None) {
        Ok(Some(d)) => d,
        _ => panic!("failed to read {dt}"),
    }
}

fn civil(year: i16, month: i8, day: i8, hour: i8, minute: i8, second: i8, subsec_nanosecond: i32) -> CivilDateTime {
    CivilDateTime { year, month, day, hour, minute, second, subsec_nanosecond }
}

fn edt(datetime: CivilDateTime, offset_hours: i32) -> ExifDateTime {
    ExifDateTime::nonstd(datetime, Some(offset_hours * 3600))
}

fn edt_ntz(datetime: CivilDateTime) -> ExifDateTime {
    ExifDateTime::nonstd(datetime, None)
}

#[test]
fn datetime_empty() {
    let dt = parse_raw(None, None);
    assert!(matches!(dt, Ok(None)));
}

#[test]
fn datetime_no_tz() {
    assert_eq!(parse_ntz("2020-01-31T04:21:49+00:00"), edt_ntz(civil(2020, 1, 31, 4, 21, 49, 0)));
    assert_eq!(
        parse_ntz("2018-10-07T15:54:57.356+00:00"),
        edt_ntz(civil(2018, 10, 7, 15, 54, 57, 356000000)),
    );
    assert_eq!(parse_ntz("2022-08-22T15:24:51+00:00"), edt_ntz(civil(2022, 8, 22, 15, 24, 51, 0)));
}

#[test]
fn datetime_std_tz() {
    assert_eq!(
        parse("2020-01-31T04:21:49+00:00", "America/Los_Angeles"),
        edt(civil(2020, 1, 31, 4, 21, 49, 0), -8),
    );
    assert_eq!(
        parse("2018-10-07T15:54:57.356+00:00", "America/Los_Angeles"),
        edt(civil(2018, 10, 7, 15, 54, 57, 356000000), -7),
    );
    assert_eq!(
        parse("2022-08-22T15:24:51+00:00", "America/Los_Angeles"),
        edt(civil(2022, 8, 22, 15, 24, 51, 0), -7),
    );
}

#[test]
fn datetime_utc_tz() {
    assert_eq!(parse("2020-01-31T04:21:49+00:00", "UTC"), edt(civil(2020, 1, 31, 4, 21, 49, 0), 0));
    assert_eq!(
        parse("2018-10-07T15:54:57.356+00:00", "UTC"),
        edt(civil(2018, 10, 7, 15, 54, 57, 356000000), 0),
    );
    assert_eq!(parse("2022-08-22T15:24:51+00:00", "UTC"), edt(civil(2022, 8, 22, 15, 24, 51, 0), 0));
}

#[test]
fn datetime_utc_minus_5() {
    assert_eq!(parse("2020-01-31T04:21:49+00:00", "UTC-5"), edt(civil(2020, 1, 31, 4, 21, 49, 0), -5));
    assert_eq!(
        parse("2018-10-07T15:54:57.356+00:00", "UTC-5"),
        edt(civil(2018, 10, 7, 15, 54, 57, 356000000), -5),
    );
    assert_eq!(parse("2022-08-22T15:24:51+00:00", "UTC-5"), edt(civil(2022, 8, 22, 15, 24, 51, 0), -5));
}
