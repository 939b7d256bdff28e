use immich_exif_tool::plan::datetime::ParsedDateTime;
use immich_exif_tool::plan::exiftool::{none_if_empty, AssetExif};
use immich_exif_tool::plan::file::{AssetState, FieldState, FieldStats, FixesFile, Summary};
use immich_exif_tool::plan::{date_time_state_of, is_sidecar, relative_path};
use immich_exif_tool::pull::file::AssetExif as PulledExif;

fn local(source_file: &str, date: Option<&str>, gps: Option<(f64, f64)>, description: Option<&str>) -> AssetExif<f64> {
    AssetExif {
        source_file: source_file.to_string(),
        date_time_original: date.map(String::from),
        gps_latitude: gps.map(|g| g.0),
        gps_longitude: gps.map(|g| g.1),
        description: description.map(String::from),
    }
}

fn pulled(date: Option<&str>, gps: Option<(f64, f64)>, description: Option<&str>) -> PulledExif<f64, ()> {
    PulledExif {
        date_time_original: date.map(String::from),
        latitude: gps.map(|g| g.0),
        longitude: gps.map(|g| g.1),
        description: description.map(String::from),
        city: None,
        state: None,
        country: None,
        make: None,
        model: None,
        rating: None,
        extra: Vec::new(),
    }
}

const JPEG: [u8; 4] = [0xFF, 0xD8, 0xFF, 0xE1];

#[test]
fn date_state_equal_exif_dates_are_good() {
    let a = local("a.jpg", Some("2024:07:11 01:14:00+02:00"), None, None);
    assert_eq!(a.assess_date_time_state(Some("2024-07-10T23:14:00Z")), FieldState::Good);
}

#[test]
fn date_state_prefers_immich() {
    let a = local("a.jpg", Some("2024:07:11 01:14:00"), None, None);
    assert_eq!(
        a.assess_date_time_state(Some("2024-07-11T01:14:00+02:00")),
        FieldState::Fixable { is: Some("2024:07:11 01:14:00".to_string()), fix: "2024:07:11 01:14:00+02:00".to_string() }
    );
}

#[test]
fn date_state_repairs_non_exif_local_text() {
    let a = local("a.jpg", Some("2024-07-11T01:14:00"), None, None);
    assert_eq!(
        a.assess_date_time_state(None),
        FieldState::Fixable { is: Some("2024-07-11T01:14:00".to_string()), fix: "2024:07:11 01:14:00".to_string() }
    );
}

#[test]
fn date_state_without_dates() {
    let a = local("a.jpg", None, None, None);
    assert_eq!(a.assess_date_time_state(None), FieldState::Unfixable);
    assert_eq!(
        a.assess_date_time_state(Some("2024:07:11 01:14:00")),
        FieldState::Fixable { is: None, fix: "2024:07:11 01:14:00".to_string() }
    );
}

#[test]
fn date_state_of_parsed_values() {
    let l = ParsedDateTime::new("2024:07:11 01:14:00");
    let i = ParsedDateTime::new("2024:07:11 01:14:00");
    assert_eq!(date_time_state_of(Some("2024:07:11 01:14:00"), l, i), FieldState::Good);
    assert_eq!(date_time_state_of(None, None, None), FieldState::Unfixable);
}

#[test]
fn gps_state() {
    let a = local("a.jpg", None, Some((1.0, 2.0)), None);
    let none = local("a.jpg", None, None, None);
    assert_eq!(none.assess_gps_state(None, false), FieldState::Unfixable);
    assert_eq!(none.assess_gps_state(Some((3.0, 4.0)), false), FieldState::Fixable { is: None, fix: (3.0, 4.0) });
    assert_eq!(a.assess_gps_state(None, false), FieldState::Good);
    assert_eq!(a.assess_gps_state(Some((1.00001, 2.0)), true), FieldState::Good);
    assert_eq!(
        a.assess_gps_state(Some((3.0, 4.0)), false),
        FieldState::Fixable { is: Some((1.0, 2.0)), fix: (3.0, 4.0) }
    );
}

#[test]
fn description_state() {
    let a = local("a.jpg", None, None, Some("Beach"));
    assert_eq!(a.assess_desc_state(Some("Beach")), FieldState::Good);
    assert_eq!(
        a.assess_desc_state(Some("Sea")),
        FieldState::Fixable { is: Some("Beach".to_string()), fix: "Sea".to_string() }
    );
    assert_eq!(a.assess_desc_state(None), FieldState::Good);
    let none = local("a.jpg", None, None, None);
    assert_eq!(none.assess_desc_state(None), FieldState::Unfixable);
}

#[test]
fn file_extension_state() {
    let png = local("dir/IMG.png", None, None, None);
    assert_eq!(
        png.assess_file_ext_state(&JPEG),
        FieldState::Fixable { is: Some("png".to_string()), fix: "jpg".to_string() }
    );
    assert_eq!(
        png.assess_file_ext_state(b"RIFF"),
        FieldState::Fixable { is: Some("png".to_string()), fix: "webp".to_string() }
    );
    let jpg = local("dir/IMG.JPG", None, None, None);
    assert_eq!(jpg.assess_file_ext_state(&JPEG), FieldState::Good);
}

#[test]
fn assess_state_of_whole_asset() {
    let a = local("dir/IMG.heic", Some("2024:07:11 01:14:00"), Some((1.0, 2.0)), None);
    let p = pulled(Some("2024-07-11T01:14:00"), Some((1.0, 2.0)), Some("Beach"));
    let s = a.assess_state(Some(&p), true, &JPEG);
    assert_eq!(s.date_time, FieldState::Good);
    assert_eq!(s.gps, FieldState::Good);
    assert_eq!(s.description, FieldState::Fixable { is: None, fix: "Beach".to_string() });
    assert_eq!(s.file_extension, FieldState::Fixable { is: Some("heic".to_string()), fix: "jpg".to_string() });
    assert!(s.has_fixes());
}

#[test]
fn fixes_file_records() {
    let mut f = FixesFile::<f64>::new();
    f.record_orphan("z.jpg".to_string());
    f.record_orphan("a.jpg".to_string());
    let good = AssetState {
        date_time: FieldState::Good,
        gps: FieldState::Good,
        description: FieldState::Good,
        file_extension: FieldState::Good,
    };
    f.record_assessed("b.jpg".to_string(), good);
    let unfixable = AssetState {
        date_time: FieldState::Unfixable,
        gps: FieldState::Good,
        description: FieldState::Good,
        file_extension: FieldState::Good,
    };
    f.record_assessed("c.jpg".to_string(), unfixable);
    let fix = AssetState {
        date_time: FieldState::Good,
        gps: FieldState::Good,
        description: FieldState::Fixable { is: None, fix: "x".to_string() },
        file_extension: FieldState::Good,
    };
    f.record_assessed("d.jpg".to_string(), fix);
    f.sort_orphans();

    assert_eq!(f.summary.total, 5);
    assert_eq!(f.summary.orphaned, 2);
    assert_eq!(f.summary.date_time, FieldStats { ok: 2, fixable: 0, unfixable: 1 });
    assert_eq!(f.orphans, vec!["a.jpg".to_string(), "z.jpg".to_string()]);
    assert_eq!(f.assets.len(), 1);
    assert!(f.assets.get("c.jpg").is_none());
    assert!(f.assets.get("d.jpg").is_some());
}

#[test]
fn summary_counts_entries() {
    let mut s = Summary::new();
    let state = AssetState::<f64> {
        date_time: FieldState::Good,
        gps: FieldState::Unfixable,
        description: FieldState::Fixable { is: None, fix: "x".to_string() },
        file_extension: FieldState::Good,
    };
    s.add_entry(&state);
    assert_eq!(s.gps, FieldStats { ok: 0, fixable: 0, unfixable: 1 });
    assert_eq!(s.description, FieldStats { ok: 0, fixable: 1, unfixable: 0 });
    let mut stats = FieldStats::new();
    stats.add_entry(&state.date_time);
    assert_eq!(stats, FieldStats { ok: 1, fixable: 0, unfixable: 0 });
}

#[test]
fn helpers() {
    assert!(is_sidecar("/lib/a.jpg.xmp"));
    assert!(!is_sidecar("/lib/a.jpg"));
    assert_eq!(relative_path("/lib/", "/lib/x/a.jpg"), "x/a.jpg");
    assert_eq!(none_if_empty(Some(String::new())), None);
    assert_eq!(none_if_empty(Some("a".to_string())), Some("a".to_string()));
    assert_eq!(none_if_empty(None), None);
    let p = pulled(None, Some((1.0, 2.0)), None);
    assert_eq!(p.gps(), Some((1.0, 2.0)));
    let l = local("a", None, Some((1.0, 2.0)), None);
    assert_eq!(l.gps(), Some((1.0, 2.0)));
}

#[test]
fn parsing_trims_white_space() {
    let p = ParsedDateTime::new("  2024:07:11 01:14:00 \n").unwrap();
    assert!(p.is_exif);
    assert_eq!(p.format(), "2024:07:11 01:14:00");
    assert!(ParsedDateTime::new("   ").is_none());
}

#[test]
fn planner_args_file_name() {
    let args = immich_exif_tool::plan::Args {
        local_path: "/lib".to_string(),
        immich_data: "out/immich_data.json".to_string(),
        output: "fixes.json".to_string(),
    };
    assert_eq!(args.immich_data_file_name(), "immich_data.json");
}
