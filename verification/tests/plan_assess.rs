use immich_exif_tool::civil::CivilDateTime;
use immich_exif_tool::commands::plan::{
    assess_date_time, assess_date_time_d, assess_description_state, assess_file_ext_state,
    assess_gps_state, assess_state, is_local_asset, relative_path, Args, AssessError, WorkerResult,
};
use immich_exif_tool::exif::datetime::ExifDateTime;
use immich_exif_tool::exif::{AssetExif, GPS};
use immich_exif_tool::immich::local::ImmichExif;
use immich_exif_tool::plan_file::{AssetState, FieldState, FieldStats, File, Fix, Reason, Summary};

fn civil(year: i16, month: i8, day: i8, hour: i8, minute: i8, second: i8) -> CivilDateTime {
    CivilDateTime { year, month, day, hour, minute, second, subsec_nanosecond: 0 }
}

fn std_date(dt: CivilDateTime, offset: Option<i32>) -> ExifDateTime {
    ExifDateTime { datetime: dt, offset, was_std: true }
}

const JPEG: [u8; 4] = [0xFF, 0xD8, 0xFF, 0xE0];
const RIFF: [u8; 4] = *b"RIFF";
const PNG: [u8; 4] = [0x89, b'P', b'N', b'G'];

fn good_state() -> AssetState<f64> {
    AssetState {
        date_time: FieldState::Good,
        gps: FieldState::Good,
        description: FieldState::Good,
        file_extension: FieldState::Good,
    }
}

#[test]
fn args_file_names() {
    let args = Args {
        local_path: "/photos".to_string(),
        immich_data: "data/immich_data.json".to_string(),
        output: "plan.json".to_string(),
    };
    assert_eq!(args.immich_data_file_name(), "immich_data.json");
    assert_eq!(args.output_file_name(), "plan.json");
    let bare = Args { local_path: String::new(), immich_data: "/".to_string(), output: "..".to_string() };
    assert_eq!(bare.immich_data_file_name(), "");
    assert_eq!(bare.output_file_name(), "");
}

#[test]
fn date_without_sources_is_unfixable() {
    let s = assess_date_time(None, None).unwrap();
    assert_eq!(s, FieldState::Unfixable(Reason::NoSources));
}

#[test]
fn date_only_in_immich_is_added_with_line_break() {
    let immich = ExifDateTime::nonstd(civil(2024, 7, 11, 1, 14, 0), Some(7200));
    let s = assess_date_time(None, Some(immich)).unwrap();
    assert_eq!(s, FieldState::Fixable(Fix::AddImmich("2024:07:11 01:14:00+02:00\n".to_string())));
}

#[test]
fn local_std_date_alone_is_good() {
    let local = std_date(civil(2024, 7, 11, 1, 14, 0), None);
    let s = assess_date_time(Some((local, "2024:07:11 01:14:00".to_string())), None).unwrap();
    assert_eq!(s, FieldState::Good);
}

#[test]
fn local_nonstd_date_alone_is_repaired() {
    let local = ExifDateTime::nonstd(civil(2024, 7, 11, 1, 14, 0), None);
    let s = assess_date_time(Some((local, "2024-07-11 01:14".to_string())), None).unwrap();
    assert_eq!(
        s,
        FieldState::Fixable(Fix::Repair {
            new: "2024:07:11 01:14:00\n".to_string(),
            old: "2024-07-11 01:14".to_string(),
        })
    );
}

#[test]
fn same_date_and_offset_is_good() {
    let dt = civil(2020, 1, 31, 4, 21, 49);
    let local = std_date(dt, Some(-18000));
    let immich = ExifDateTime::nonstd(dt, Some(-18000));
    let s = assess_date_time_d(local, "2020:01:31 04:21:49-05:00".to_string(), immich).unwrap();
    assert_eq!(s, FieldState::Good);
}

#[test]
fn different_offset_is_replaced_without_line_break() {
    let dt = civil(2020, 1, 31, 4, 21, 49);
    let local = std_date(dt, Some(0));
    let immich = ExifDateTime::nonstd(dt, Some(-18000));
    let s = assess_date_time_d(local, "2020:01:31 04:21:49+00:00".to_string(), immich).unwrap();
    assert_eq!(
        s,
        FieldState::Fixable(Fix::ReplaceWithImmich {
            old: "2020:01:31 04:21:49+00:00".to_string(),
            new: "2020:01:31 04:21:49-05:00".to_string(),
        })
    );
}

#[test]
fn local_without_offset_takes_immich_offset() {
    let dt = civil(2020, 1, 31, 4, 21, 49);
    let local = std_date(dt, None);
    let immich = ExifDateTime::nonstd(dt, Some(3600));
    let s = assess_date_time_d(local, "2020:01:31 04:21:49".to_string(), immich).unwrap();
    assert_eq!(
        s,
        FieldState::Fixable(Fix::ReplaceWithImmich {
            old: "2020:01:31 04:21:49".to_string(),
            new: "2020:01:31 04:21:49+01:00".to_string(),
        })
    );
}

#[test]
fn local_offset_against_immich_without_is_kept() {
    let local = std_date(civil(2020, 1, 31, 4, 21, 49), Some(3600));
    let immich = ExifDateTime::nonstd(civil(2001, 1, 1, 0, 0, 0), None);
    let s = assess_date_time_d(local, "2020:01:31 04:21:49+01:00".to_string(), immich).unwrap();
    assert_eq!(s, FieldState::Good);
}

#[test]
fn different_civil_times_without_offsets_are_replaced() {
    let local = std_date(civil(2020, 1, 31, 4, 21, 49), None);
    let immich = ExifDateTime::nonstd(civil(2020, 1, 31, 4, 21, 50), None);
    let s = assess_date_time_d(local, "2020:01:31 04:21:49".to_string(), immich).unwrap();
    assert_eq!(
        s,
        FieldState::Fixable(Fix::ReplaceWithImmich {
            old: "2020:01:31 04:21:49".to_string(),
            new: "2020:01:31 04:21:50".to_string(),
        })
    );
}

#[test]
fn gps_states() {
    let a = GPS { latitude: 1.0, longitude: 2.0 };
    let b = GPS { latitude: 3.0, longitude: 4.0 };
    assert!(matches!(assess_gps_state::<f64>(None, None, false), FieldState::Unfixable(Reason::NoSources)));
    match assess_gps_state(None, Some(b), false) {
        FieldState::Fixable(Fix::AddImmich(g)) => assert_eq!((g.latitude, g.longitude), (3.0, 4.0)),
        _ => panic!("expected an addition"),
    }
    assert!(matches!(assess_gps_state(Some(a), None, false), FieldState::Good));
    assert!(matches!(assess_gps_state(Some(a), Some(b), true), FieldState::Good));
    match assess_gps_state(Some(a), Some(b), false) {
        FieldState::Fixable(Fix::ReplaceWithImmich { old, new }) => {
            assert_eq!((old.latitude, new.latitude), (1.0, 3.0));
        }
        _ => panic!("expected a replacement"),
    }
}

#[test]
fn description_states() {
    assert_eq!(assess_description_state(None, None), FieldState::Unfixable(Reason::NoSources));
    assert_eq!(
        assess_description_state(None, Some("Beach")),
        FieldState::Fixable(Fix::AddImmich("Beach".to_string()))
    );
    assert_eq!(assess_description_state(Some("Beach".to_string()), None), FieldState::Good);
    assert_eq!(assess_description_state(Some("Beach".to_string()), Some("Beach")), FieldState::Good);
    assert_eq!(
        assess_description_state(Some("Beach".to_string()), Some("Sea")),
        FieldState::Fixable(Fix::ReplaceWithImmich { old: "Beach".to_string(), new: "Sea".to_string() })
    );
}

#[test]
fn file_extension_states() {
    assert_eq!(
        assess_file_ext_state("a/IMG_1.PNG", &JPEG),
        FieldState::Fixable(Fix::Repair { old: "png".to_string(), new: "jpg".to_string() })
    );
    assert_eq!(
        assess_file_ext_state("a/IMG_1.heic", &JPEG),
        FieldState::Fixable(Fix::Repair { old: "heic".to_string(), new: "jpg".to_string() })
    );
    assert_eq!(
        assess_file_ext_state("a/IMG_1.png", &RIFF),
        FieldState::Fixable(Fix::Repair { old: "png".to_string(), new: "webp".to_string() })
    );
    assert_eq!(assess_file_ext_state("a/IMG_1.png", &PNG), FieldState::Good);
    assert_eq!(assess_file_ext_state("a/IMG_1.heic", &RIFF), FieldState::Good);
    assert_eq!(assess_file_ext_state("a/IMG_1.jpg", &JPEG), FieldState::Good);
    assert_eq!(assess_file_ext_state("a/README", &JPEG), FieldState::Good);
}

#[test]
fn local_assets_have_a_non_sidecar_extension() {
    assert!(is_local_asset("/lib/2024/a.jpg"));
    assert!(is_local_asset("/lib/2024/a.XMP"));
    assert!(!is_local_asset("/lib/2024/a.jpg.xmp"));
    assert!(!is_local_asset("/lib/2024/README"));
}

#[test]
fn relative_paths() {
    assert_eq!(relative_path("/photos/", "/photos/2024/a.jpg"), "2024/a.jpg");
    assert_eq!(relative_path("/photos/", "/other/a.jpg"), "/other/a.jpg");
}

fn local_asset(source_file: &str, description: Option<&str>) -> AssetExif<f64> {
    AssetExif {
        source_file: source_file.to_string(),
        date_time: Some((
            std_date(civil(2024, 7, 11, 1, 14, 0), Some(7200)),
            "2024:07:11 01:14:00+02:00".to_string(),
        )),
        gps: Some(GPS { latitude: 1.0, longitude: 2.0 }),
        description: description.map(String::from),
    }
}

#[test]
fn assess_state_without_immich() {
    let state = assess_state(local_asset("2024/a.png", None), None, false, &JPEG).ok().unwrap();
    assert_eq!(state.date_time, FieldState::Good);
    assert!(matches!(state.gps, FieldState::Good));
    assert_eq!(state.description, FieldState::Unfixable(Reason::NoSources));
    assert_eq!(
        state.file_extension,
        FieldState::Fixable(Fix::Repair { old: "png".to_string(), new: "jpg".to_string() })
    );
    assert!(!state.is_perfect());
}

#[test]
fn assess_state_with_immich() {
    let immich = ImmichExif::<f64> {
        date_time_original: Some("2024-07-11T01:14:00+00:00".to_string()),
        time_zone: Some("UTC+2".to_string()),
        latitude: Some(1.0),
        longitude: Some(2.0),
        description: Some("Beach".to_string()),
    };
    let state = assess_state(local_asset("2024/a.jpg", Some("Beach")), Some(&immich), true, &JPEG)
        .ok()
        .unwrap();
    assert!(state.is_perfect());
}

#[test]
fn assess_state_reports_immich_date_errors() {
    let immich = ImmichExif::<f64> {
        date_time_original: Some("2024-07-11".to_string()),
        time_zone: None,
        latitude: None,
        longitude: None,
        description: None,
    };
    match assess_state(local_asset("2024/a.jpg", None), Some(&immich), false, &JPEG) {
        Err(AssessError::ImmichDate(_)) => {}
        _ => panic!("expected an error on the Immich date"),
    }
}

#[test]
fn worker_result_counts_each_field_once() {
    let mut res = WorkerResult::<f64>::new();
    res.record_asset("a.jpg".to_string(), true, good_state());
    let mut fixable = good_state();
    fixable.description = FieldState::Fixable(Fix::AddImmich("Beach".to_string()));
    res.record_asset("b.jpg".to_string(), true, fixable);
    let mut orphan = good_state();
    orphan.gps = FieldState::Unfixable(Reason::NoSources);
    res.record_asset("c.jpg".to_string(), false, orphan);

    assert_eq!(res.linked, 2);
    assert_eq!(res.orphaned, vec!["c.jpg".to_string()]);
    assert_eq!(res.issued.len(), 2);
    assert_eq!(res.issued[0].0, "b.jpg");
    assert_eq!(res.issued[1].0, "c.jpg");
    assert_eq!(res.description, FieldStats { ok: 2, fixable: 1, unfixable: 0 });
    assert_eq!(res.gps, FieldStats { ok: 2, fixable: 0, unfixable: 1 });
    for stats in [res.date_time, res.gps, res.description, res.file_extension] {
        assert_eq!(stats.ok + stats.fixable + stats.unfixable, 3);
    }
}

#[test]
fn summary_adds_worker_results() {
    let mut summary = Summary::new();
    let mut res = WorkerResult::<f64>::new();
    res.record_asset("a.jpg".to_string(), true, good_state());
    res.record_asset("b.jpg".to_string(), false, good_state());
    summary.add_result(&res);
    summary.add_result(&res);
    assert_eq!(summary.linked, 2);
    assert_eq!(summary.orphaned, 2);
    assert_eq!(summary.total, 4);
    assert_eq!(summary.date_time, FieldStats { ok: 4, fixable: 0, unfixable: 0 });
}

#[test]
fn plan_file_merges_worker_results() {
    let mut file = File::<f64>::new();
    let mut first = WorkerResult::<f64>::new();
    let mut fixable = good_state();
    fixable.description = FieldState::Fixable(Fix::AddImmich("Beach".to_string()));
    first.record_asset("a.jpg".to_string(), true, fixable);
    first.record_asset("z.jpg".to_string(), false, good_state());
    let mut second = WorkerResult::<f64>::new();
    second.record_asset("b.jpg".to_string(), true, good_state());
    second.record_asset("y.jpg".to_string(), false, good_state());
    file.add_result(first);
    file.add_result(second);

    assert_eq!(file.summary.total, 4);
    assert_eq!(file.summary.linked, 2);
    assert_eq!(file.summary.orphaned, 2);
    assert_eq!(file.assets.len(), 1);
    assert!(file.assets.get("a.jpg").is_some());
    assert!(file.assets.get("b.jpg").is_none());
    assert_eq!(file.orphans.len(), 2);
    assert!(file.orphans.get("z.jpg").is_some());
    assert!(file.orphans.get("y.jpg").is_some());
}

#[test]
fn field_stats_add_state_and_stats() {
    let mut stats = FieldStats::new();
    stats.add_state(&FieldState::<String>::Good);
    stats.add_state(&FieldState::<String>::Unfixable(Reason::NoSources));
    stats.add_state(&FieldState::Fixable(Fix::AddImmich("x".to_string())));
    assert_eq!(stats, FieldStats { ok: 1, fixable: 1, unfixable: 1 });
    stats.add_stats(FieldStats { ok: 2, fixable: 3, unfixable: 4 });
    assert_eq!(stats, FieldStats { ok: 3, fixable: 4, unfixable: 5 });
}
