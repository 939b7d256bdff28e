use immich_exif_tool::immich::remote::{Album, Json};

fn s(v: &str) -> Json<i64> {
    Json::Str(v.to_string())
}

fn obj(members: Vec<(&str, Json<i64>)>) -> Json<i64> {
    Json::Object(members.into_iter().map(|(k, v)| (k.to_string(), v)).collect())
}

fn is_obj_with(v: &Json<i64>, expected: &[(&str, &str)]) -> bool {
    match v {
        Json::Object(ms) => {
            ms.len() == expected.len()
                && ms.iter().zip(expected).all(|((k, v), (ek, ev))| {
                    k == ek && matches!(v, Json::Str(x) if x == ev)
                })
        }
        _ => false,
    }
}

#[test]
fn album_id() {
    let album = Album { value: obj(vec![("albumName", s("Trip")), ("id", s("a1")), ("id", s("a2"))]) };
    assert_eq!(album.id(), Some("a1"));
    let numeric = Album { value: obj(vec![("id", Json::Number(7))]) };
    assert_eq!(numeric.id(), None);
    let not_object = Album { value: Json::<i64>::Null };
    assert_eq!(not_object.id(), None);
}

#[test]
fn strip_keeps_only_asset_ids() {
    let mut album = Album {
        value: obj(vec![
            ("id", s("a1")),
            (
                "assets",
                Json::Array(vec![
                    obj(vec![("originalPath", s("/lib/x.jpg")), ("id", s("x")), ("type", s("IMAGE"))]),
                    obj(vec![("id", Json::Number(3)), ("type", s("VIDEO"))]),
                    s("loose"),
                ]),
            ),
            ("albumName", s("Trip")),
        ]),
    };
    album.strip_asset_details();
    let Json::Object(ms) = &album.value else { panic!("album is no longer an object") };
    assert_eq!(ms.len(), 3);
    assert_eq!(ms[0].0, "id");
    assert_eq!(ms[1].0, "assets");
    assert_eq!(ms[2].0, "albumName");
    let Json::Array(items) = &ms[1].1 else { panic!("assets are no longer an array") };
    assert_eq!(items.len(), 3);
    assert!(is_obj_with(&items[0], &[("id", "x")]));
    match &items[1] {
        Json::Object(m) => assert_eq!(m.len(), 2),
        _ => panic!("an asset without a string id is kept as it was"),
    }
    assert!(matches!(&items[2], Json::Str(x) if x == "loose"));
}

#[test]
fn strip_leaves_albums_without_asset_array() {
    let mut album = Album { value: obj(vec![("assets", s("none"))]) };
    album.strip_asset_details();
    assert!(is_obj_with(&album.value, &[("assets", "none")]));
}

#[test]
fn set_activities_replaces_or_appends() {
    let mut album = Album { value: obj(vec![("id", s("a1"))]) };
    album.set_activities(Json::Array(vec![]));
    match &album.value {
        Json::Object(ms) => {
            assert_eq!(ms.len(), 2);
            assert_eq!(ms[1].0, "activities");
        }
        _ => panic!("album is no longer an object"),
    }
    album.set_activities(s("again"));
    match &album.value {
        Json::Object(ms) => {
            assert_eq!(ms.len(), 2);
            assert!(matches!(&ms[1].1, Json::Str(x) if x == "again"));
        }
        _ => panic!("album is no longer an object"),
    }
    let mut not_object = Album { value: Json::Bool(true) };
    not_object.set_activities(s("x"));
    assert!(matches!(not_object.value, Json::Bool(true)));
}
