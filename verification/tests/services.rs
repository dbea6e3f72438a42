use moments::album::service::AlbumService;
use moments::album::{AlbumEvent, AlbumId};
use moments::config::LocalStorageMode;
use moments::faces::service::FacesService;
use moments::faces::{AssetFaceRow, FacesEvent, PersonId};
use moments::media::repository::MediaRepository;
use moments::media::service::MediaService;
use moments::media::{
    copy_ids, one_id, MediaCursor, MediaEvent, MediaFilter, MediaId, MediaItem, MediaRecord,
    MediaType,
};
use moments::mutation::Mutation;
use moments::path::{file_name, join_path, split_extension};
use moments::sql::{id_placeholders, Bind, Part, Statement};

fn id(s: &str) -> MediaId {
    MediaId::new(s.to_string())
}

fn service(mode: LocalStorageMode) -> MediaService {
    MediaService {
        originals_dir: "/b/originals".to_string(),
        mode,
    }
}

fn record(path: &str) -> MediaRecord {
    MediaRecord {
        id: id("m"),
        content_hash: None,
        external_id: None,
        relative_path: path.to_string(),
        original_filename: "photo.jpg".to_string(),
        file_size: 1,
        imported_at: 2,
        media_type: MediaType::Image,
        taken_at: None,
        width: None,
        height: None,
        orientation: 1,
        duration_ms: None,
        is_favorite: false,
        is_trashed: false,
        trashed_at: None,
        is_moments_render: false,
    }
}

#[test]
fn originals_lie_where_the_mode_says() {
    assert_eq!(
        service(LocalStorageMode::Managed).file_path("2025/a.jpg"),
        "/b/originals/2025/a.jpg"
    );
    assert_eq!(service(LocalStorageMode::Referenced).file_path("/home/a.jpg"), "/home/a.jpg");
}

#[test]
fn referenced_originals_are_never_collected() {
    let found = vec![
        (id("a"), Some("x/a.jpg".to_string())),
        (id("b"), None),
        (id("c"), Some("x/c.jpg".to_string())),
    ];
    let doomed = service(LocalStorageMode::Managed).collect_original_paths(&found);
    assert_eq!(
        doomed,
        vec![
            (id("a"), "/b/originals/x/a.jpg".to_string()),
            (id("c"), "/b/originals/x/c.jpg".to_string())
        ]
    );
    assert!(service(LocalStorageMode::Referenced)
        .collect_original_paths(&found)
        .is_empty());
}

#[test]
fn changes_are_told_and_recorded() {
    let ids = vec![id("a"), id("b")];
    let (event, change) = service(LocalStorageMode::Managed).insert_media(&record("x/m.jpg"));
    assert!(matches!(event, MediaEvent::Added(v) if v == [id("m")]));
    assert!(matches!(change, Mutation::AssetImported { id: i, file_path }
        if i == id("m") && file_path == "/b/originals/x/m.jpg"));
    let (event, change) = MediaService::set_favorite(&ids, true);
    assert!(matches!(event, MediaEvent::Updated(v) if v == ids));
    assert!(matches!(change, Mutation::AssetFavorited { ids: v, favorite: true } if v == ids));
    let (event, change) = MediaService::trash(&ids);
    assert!(matches!(event, MediaEvent::Updated(v) if v == ids));
    assert!(matches!(change, Mutation::AssetTrashed { ids: v } if v == ids));
    let (event, change) = MediaService::restore(&ids);
    assert!(matches!(event, MediaEvent::Updated(v) if v == ids));
    assert!(matches!(change, Mutation::AssetRestored { ids: v } if v == ids));
    let known = vec![("b".to_string(), "srv-b".to_string())];
    let (events, change) = MediaService::delete_permanently(&ids, &known, vec![]);
    assert_eq!(events.len(), 1);
    assert!(matches!(change, Mutation::AssetDeleted { items }
        if items == [(id("a"), None), (id("b"), Some("srv-b".to_string()))]));
    assert_eq!(copy_ids(&ids), ids);
    assert_eq!(one_id(&id("a")), [id("a")]);
}

#[test]
fn album_changes_are_told_and_recorded() {
    let album = AlbumId::from_raw("al".to_string());
    let ids = vec![id("a")];
    assert!(matches!(AlbumService::upsert_album(album.clone(), false),
        AlbumEvent::AlbumAdded(a) if a == album));
    assert!(matches!(AlbumService::create_album(&album, "n"),
        Mutation::AlbumCreated { id: a, name } if a == album && name == "n"));
    assert!(matches!(AlbumService::rename_album(&album, "n"),
        Mutation::AlbumRenamed { id: a, name } if a == album && name == "n"));
    let (event, change) = AlbumService::delete_album(&album, Some("srv".to_string()));
    assert!(matches!(event, AlbumEvent::AlbumRemoved(a) if a == album));
    assert!(matches!(change, Mutation::AlbumDeleted { id: a, external_id: Some(e) }
        if a == album && e == "srv"));
    for (events, change, added) in [
        {
            let (e, m) = AlbumService::add_to_album(&album, &ids);
            (e, m, true)
        },
        {
            let (e, m) = AlbumService::remove_from_album(&album, &ids);
            (e, m, false)
        },
    ] {
        assert_eq!(events.len(), 2);
        assert!(matches!(&events[0], AlbumEvent::AlbumUpdated(a) if a == &album));
        assert!(matches!(&events[1], AlbumEvent::AlbumMediaChanged(a) if a == &album));
        match change {
            Mutation::AlbumMediaAdded { album_id, media_ids } => {
                assert!(added && album_id == album && media_ids == ids)
            }
            Mutation::AlbumMediaRemoved { album_id, media_ids } => {
                assert!(!added && album_id == album && media_ids == ids)
            }
            other => panic!("{other:?}"),
        }
    }
}

fn face(person: Option<&str>, is_visible: bool) -> AssetFaceRow {
    AssetFaceRow {
        id: "f".to_string(),
        asset_id: "m".to_string(),
        person_id: person.map(str::to_string),
        image_width: 1,
        image_height: 1,
        bbox_x1: 0,
        bbox_y1: 0,
        bbox_x2: 1,
        bbox_y2: 1,
        source_type: "MachineLearning".to_string(),
        is_visible,
        deleted_at: None,
    }
}

fn affected(previous: Option<&str>, face: &AssetFaceRow) -> Vec<String> {
    FacesService::upsert_asset_face(previous.map(str::to_string), face)
        .iter()
        .map(|e| match e {
            FacesEvent::PersonMediaChanged(p) => p.to_string(),
            other => panic!("{other:?}"),
        })
        .collect()
}

#[test]
fn faces_that_move_tell_both_people() {
    assert_eq!(affected(None, &face(Some("p"), true)), vec!["p"]);
    assert!(affected(Some("p"), &face(Some("p"), true)).is_empty());
    assert_eq!(affected(Some("o"), &face(Some("p"), true)), vec!["o", "p"]);
    assert_eq!(affected(Some("p"), &face(Some("p"), false)), vec!["p"]);
    assert!(affected(None, &face(Some("p"), false)).is_empty());
    assert!(affected(None, &face(None, true)).is_empty());
    assert!(matches!(FacesService::delete_asset_face(Some("p".to_string())),
        Some(FacesEvent::PersonMediaChanged(p)) if p.as_str() == "p"));
    assert!(FacesService::delete_asset_face(None).is_none());
}

#[test]
fn people_changes_are_told_and_recorded() {
    let p = PersonId::from_raw("person-uuid".to_string());
    assert!(matches!(FacesService::upsert_person(p.clone(), true),
        FacesEvent::PersonUpdated(q) if q == p));
    assert!(matches!(FacesService::upsert_person(p.clone(), false),
        FacesEvent::PersonAdded(q) if q == p));
    assert!(matches!(FacesService::delete_person_by_id("person-uuid"),
        FacesEvent::PersonRemoved(q) if q == p));
    assert!(matches!(FacesService::rename_person(&p, "Ann"),
        Mutation::PersonRenamed { id, name } if id == p && name == "Ann"));
    assert!(matches!(FacesService::set_person_hidden(&p, true),
        Mutation::PersonHidden { id, hidden: true } if id == p));
    let service = FacesService {
        thumbnails_dir: "/b/thumbnails".to_string(),
    };
    assert_eq!(service.person_thumbnail_path(&p), "/b/thumbnails/people/person-uuid.jpg");
}

#[test]
fn placeholders_match_their_values() {
    assert_eq!(id_placeholders(0), "");
    assert_eq!(id_placeholders(1), "?");
    assert_eq!(id_placeholders(3), "?, ?, ?");
    let mut st = Statement::new();
    st.sql("a ");
    st.num(7);
    st.flag(true);
    st.ids(&vec![id("x"), id("y")]);
    st.opt_text(&None);
    st.push(Part::Bound(Bind::Real64(1)));
    assert_eq!(st.to_sql(), "a ???, ???");
    let binds = st.into_binds();
    assert_eq!(binds.len(), 6);
    assert!(matches!(binds[0], Bind::Int(7)));
    assert!(matches!(binds[1], Bind::Int(1)));
    assert!(matches!(&binds[3], Bind::Text(s) if s == "y"));
    assert!(matches!(binds[4], Bind::Null));
}

#[test]
fn listings_bind_cursor_filter_and_limit_in_order() {
    let cursor = Some(MediaCursor {
        sort_key: 5,
        id: id("c"),
    });
    let st = MediaRepository::list(&MediaFilter::RecentImports { since: 9 }, &cursor, 50);
    let binds = st.into_binds();
    assert_eq!(binds.len(), 5);
    assert!(matches!(binds[0], Bind::Int(5)));
    assert!(matches!(binds[1], Bind::Int(5)));
    assert!(matches!(&binds[2], Bind::Text(s) if s == "c"));
    assert!(matches!(&binds[3], Bind::Text(s) if s == "9"));
    assert!(matches!(binds[4], Bind::Int(50)));
}

#[test]
fn the_trash_is_apart() {
    let item = |is_trashed: bool, is_favorite: bool| MediaItem {
        id: id("m"),
        taken_at: None,
        imported_at: 10,
        original_filename: "a.jpg".to_string(),
        width: None,
        height: None,
        orientation: 1,
        media_type: MediaType::Image,
        is_favorite,
        is_trashed,
        trashed_at: None,
        duration_ms: None,
        stack_id: None,
        is_moments_render: false,
    };
    let recent = MediaFilter::RecentImports { since: 9 };
    assert!(MediaFilter::All.matches(&item(false, false)));
    assert!(!MediaFilter::All.matches(&item(true, false)));
    assert!(MediaFilter::Favorites.matches(&item(false, true)));
    assert!(!MediaFilter::Favorites.matches(&item(true, true)));
    assert!(MediaFilter::Trashed.matches(&item(true, true)));
    assert!(recent.matches(&item(false, false)));
    assert!(!MediaFilter::RecentImports { since: 10 }.matches(&item(false, false)));
    let album = MediaFilter::Album {
        album_id: AlbumId::from_raw("a".to_string()),
    };
    assert!(!album.supports_inline_match() && !album.matches(&item(false, false)));
    assert!(recent.supports_inline_match());
}

#[test]
fn paths_join_and_split_like_std_does() {
    for (a, b) in [("/a", "b"), ("/a/", "b"), ("", "b"), ("/a", "/b"), ("a", "")] {
        let std_joined = std::path::Path::new(a).join(b);
        assert_eq!(join_path(a, b), std_joined.to_str().unwrap(), "{a} {b}");
    }
    for p in ["/a/b.jpg", "b.tar.gz", "/a/.hidden", "/a/..", "/", "", "a/", "a/.", "x."] {
        let std_path = std::path::Path::new(p);
        let name = file_name(p);
        assert_eq!(name.as_deref(), std_path.file_name().and_then(|n| n.to_str()), "{p}");
        if let Some(name) = name {
            let (stem, ext) = split_extension(&name);
            assert_eq!(Some(stem.as_str()), std_path.file_stem().and_then(|n| n.to_str()), "{p}");
            assert_eq!(ext.as_deref(), std_path.extension().and_then(|n| n.to_str()), "{p}");
        }
    }
}
