use immich_exif_tool::civil::CivilDateTime;
use immich_exif_tool::immich::local::{sibling, Asset, ImmichData};
use immich_exif_tool::keyed::KeyedList;
use immich_exif_tool::pull::{select_folders, FetchedAlbums, FetchedAssets};
use immich_exif_tool::text::{
    dir_prefix, opt_str_eq, sorted_strings, str_eq, string_le_exec, strip_trailing_slashes,
};

fn strings(v: &[&str]) -> Vec<String> {
    v.iter().map(|s| s.to_string()).collect()
}

#[test]
fn dir_prefix_has_one_trailing_slash() {
    assert_eq!(dir_prefix("/photos"), "/photos/");
    assert_eq!(dir_prefix("/photos///"), "/photos/");
    assert_eq!(dir_prefix(""), "/");
    assert_eq!(dir_prefix(&dir_prefix("/a/b//")), "/a/b/");
}

#[test]
fn trailing_slashes_are_stripped() {
    assert_eq!(strip_trailing_slashes("https://immich.local///"), "https://immich.local");
    assert_eq!(strip_trailing_slashes("/lib"), "/lib");
    assert_eq!(strip_trailing_slashes("///"), "");
}

#[test]
fn sorted_strings_orders_bytewise_and_keeps_duplicates() {
    let v = strings(&["b/2.jpg", "a/1.jpg", "B/0.jpg", "a/1.jpg", "é.jpg", ""]);
    let r = sorted_strings(&v);
    let mut expected = v.clone();
    expected.sort();
    assert_eq!(r, expected);
    assert_eq!(r[0], "");
    assert_eq!(r[1], "B/0.jpg");
}

#[test]
fn string_order() {
    assert!(string_le_exec(&"a".to_string(), &"b".to_string()));
    assert!(string_le_exec(&"a".to_string(), &"a".to_string()));
    assert!(string_le_exec(&"a".to_string(), &"ab".to_string()));
    assert!(!string_le_exec(&"ab".to_string(), &"a".to_string()));
    assert!(!string_le_exec(&"b".to_string(), &"B".to_string()));
}

#[test]
fn string_equality() {
    assert!(str_eq("abc", "abc"));
    assert!(!str_eq("abc", "abd"));
    assert!(!str_eq("abc", "ab"));
    assert!(opt_str_eq(Some("a"), "a"));
    assert!(!opt_str_eq(Some("b"), "a"));
    assert!(!opt_str_eq(None, "a"));
}

#[test]
fn civil_truncation_and_text() {
    let d = CivilDateTime { year: 2018, month: 10, day: 7, hour: 15, minute: 54, second: 57, subsec_nanosecond: 356_000_000 };
    let t = d.truncated();
    assert_eq!(t.subsec_nanosecond, 0);
    assert_eq!(t.to_string(), "2018-10-07T15:54:57");
}

#[test]
fn select_folders_keeps_library_folders_in_order() {
    let all = strings(&["/lib/2024", "/other", "/lib/2023", "/li"]);
    assert_eq!(select_folders(&all, "/lib"), strings(&["/lib/2024", "/lib/2023"]));
    assert!(select_folders(&all, "/none").is_empty());
}

#[test]
fn fetched_assets_keyed_by_relative_path() {
    let mut f = FetchedAssets::<u32>::new();
    assert!(f.add_asset("/lib/2024/a.jpg", "/lib/", 1));
    assert!(!f.add_asset("/elsewhere/b.jpg", "/lib/", 2));
    f.record_error();
    assert!(f.add_asset("/lib/2024/a.jpg", "/lib/", 3));
    assert_eq!(f.errors, 1);
    assert_eq!(f.assets.len(), 1);
    assert_eq!(f.assets.get("2024/a.jpg"), Some(&3));
}

#[test]
fn fetched_albums() {
    let mut f = FetchedAlbums::<&str>::new();
    f.add_album("one");
    f.record_error();
    f.add_album("two");
    assert_eq!(f.albums, vec!["one", "two"]);
    assert_eq!(f.errors, 1);
    let failed = FetchedAlbums::<&str>::list_failed();
    assert!(failed.albums.is_empty());
    assert_eq!(failed.errors, 1);
}

#[test]
fn keyed_list_keeps_first_position() {
    let mut k = KeyedList::<u32>::new();
    k.insert("b".to_string(), 1);
    k.insert("a".to_string(), 2);
    k.insert("b".to_string(), 3);
    assert_eq!(k.len(), 2);
    assert_eq!(k.get("b"), Some(&3));
    assert_eq!(k.get("c"), None);
    let keys: Vec<&str> = k.entries().iter().map(|(key, _)| key.as_str()).collect();
    assert_eq!(keys, vec!["b", "a"]);
    assert_eq!(k.into_entries(), vec![("b".to_string(), 3), ("a".to_string(), 2)]);
}

fn asset(live: bool) -> Asset<f64> {
    Asset { is_live_photo: live, exif_info: None }
}

#[test]
fn resolve_asset_own_entry_first() {
    let mut data = ImmichData::<f64>::new();
    data.insert_asset("2024/IMG_1.MOV".to_string(), asset(false));
    data.insert_asset("2024/IMG_1.heic".to_string(), asset(true));
    let a = data.resolve_asset("2024/IMG_1.MOV").unwrap();
    assert!(!a.is_live_photo);
}

#[test]
fn resolve_asset_falls_back_to_live_photo_still() {
    let mut data = ImmichData::<f64>::new();
    data.insert_asset("2024/IMG_1.JPG".to_string(), asset(true));
    data.insert_asset("2024/IMG_2.heic".to_string(), asset(false));
    assert!(data.resolve_asset("2024/IMG_1.MOV").unwrap().is_live_photo);
    assert!(data.resolve_asset("2024/IMG_2.MOV").is_none());
    assert!(data.resolve_asset("2024/IMG_3.MOV").is_none());
}

#[test]
fn sibling_paths() {
    assert_eq!(sibling("2024", "IMG_1", "heic"), "2024/IMG_1.heic");
}
