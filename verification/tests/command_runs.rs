use moments::album::AlbumId;
use moments::commands::{begin, is_command, CommandOutcome, CommandState};
use moments::error::LibraryError;
use moments::event::AppEvent;
use moments::media::{MediaId, MediaItem, MediaType};

fn id(s: &str) -> MediaId {
    MediaId::new(s.to_string())
}

fn item(s: &str) -> MediaItem {
    MediaItem {
        id: id(s),
        taken_at: None,
        imported_at: 0,
        original_filename: "photo.jpg".to_string(),
        width: None,
        height: None,
        orientation: 1,
        media_type: MediaType::Image,
        is_favorite: false,
        is_trashed: true,
        trashed_at: Some(1),
        duration_ms: None,
        stack_id: None,
        is_moments_render: false,
    }
}

fn run(event: AppEvent, outcomes: Vec<CommandOutcome>) -> Vec<AppEvent> {
    let mut state = begin(event);
    let mut told = Vec::new();
    for outcome in outcomes {
        assert!(!matches!(state, CommandState::Finished));
        let (next, event) = state.advance(outcome);
        told.extend(event);
        state = next;
    }
    assert!(matches!(state, CommandState::Finished));
    told
}

fn failed() -> CommandOutcome {
    CommandOutcome::Failed(LibraryError::Db("locked".to_string()))
}

#[test]
fn trash_success_emits_trashed() {
    let told = run(
        AppEvent::TrashRequested { ids: vec![id("a")] },
        vec![CommandOutcome::Done],
    );
    assert_eq!(told.len(), 1);
    assert!(matches!(told[0], AppEvent::Trashed { ids: ref got } if got == &[id("a")]));
}

#[test]
fn restore_success_emits_restored() {
    let told = run(
        AppEvent::RestoreRequested { ids: vec![id("a")] },
        vec![CommandOutcome::Done],
    );
    assert!(matches!(told[0], AppEvent::Restored { ids: ref got } if got == &[id("a")]));
}

#[test]
fn delete_success_emits_deleted() {
    let told = run(
        AppEvent::DeleteRequested { ids: vec![id("a")] },
        vec![CommandOutcome::Done],
    );
    assert!(matches!(told[0], AppEvent::Deleted { ids: ref got } if got == &[id("a")]));
}

#[test]
fn favorite_success_emits_changed() {
    let told = run(
        AppEvent::FavoriteRequested {
            ids: vec![id("a")],
            state: true,
        },
        vec![CommandOutcome::Done],
    );
    assert!(
        matches!(told[0], AppEvent::FavoriteChanged { ids: ref got, is_favorite: true } if got == &[id("a")])
    );
}

#[test]
fn create_album_success_without_ids() {
    let told = run(
        AppEvent::CreateAlbumRequested {
            name: "Vacation".to_string(),
            ids: vec![],
        },
        vec![CommandOutcome::AlbumCreated(AlbumId::new())],
    );
    assert_eq!(told.len(), 1);
    assert!(matches!(told[0], AppEvent::AlbumCreated { ref name, .. } if name == "Vacation"));
}

#[test]
fn create_album_success_with_ids() {
    let album = AlbumId::new();
    let told = run(
        AppEvent::CreateAlbumRequested {
            name: "Trip".to_string(),
            ids: vec![id("a")],
        },
        vec![CommandOutcome::AlbumCreated(album.clone()), CommandOutcome::Done],
    );
    assert_eq!(told.len(), 2);
    assert!(matches!(told[0], AppEvent::AlbumCreated { ref name, .. } if name == "Trip"));
    assert!(matches!(told[1], AppEvent::AlbumMediaChanged { ref album_id } if album_id == &album));
}

#[test]
fn empty_trash_with_no_items_is_noop() {
    let told = run(
        AppEvent::EmptyTrashRequested,
        vec![CommandOutcome::TrashListed(vec![])],
    );
    assert!(told.is_empty());
}

#[test]
fn restore_all_with_no_items_is_noop() {
    let told = run(
        AppEvent::RestoreAllTrashRequested,
        vec![CommandOutcome::TrashListed(vec![])],
    );
    assert!(told.is_empty());
}

#[test]
fn whole_trash_is_emptied_or_restored() {
    let told = run(
        AppEvent::EmptyTrashRequested,
        vec![
            CommandOutcome::TrashListed(vec![item("a"), item("b")]),
            CommandOutcome::Done,
        ],
    );
    assert!(matches!(told[0], AppEvent::Deleted { ref ids } if ids == &[id("a"), id("b")]));
    let told = run(
        AppEvent::RestoreAllTrashRequested,
        vec![
            CommandOutcome::TrashListed(vec![item("a"), item("b")]),
            CommandOutcome::Done,
        ],
    );
    assert!(matches!(told[0], AppEvent::Restored { ref ids } if ids == &[id("a"), id("b")]));
}

#[test]
fn deleting_albums_goes_on_after_a_failure() {
    let albums: Vec<AlbumId> = ["x", "y", "z"]
        .iter()
        .map(|s| AlbumId::from_raw(s.to_string()))
        .collect();
    let told = run(
        AppEvent::DeleteAlbumRequested { ids: albums },
        vec![CommandOutcome::Done, failed(), CommandOutcome::Done],
    );
    assert_eq!(told.len(), 3);
    assert!(matches!(told[0], AppEvent::AlbumDeleted { ref id } if id.as_str() == "x"));
    assert!(matches!(told[1], AppEvent::Error(ref m)
        if m == "Failed to delete album: database error: locked"));
    assert!(matches!(told[2], AppEvent::AlbumDeleted { ref id } if id.as_str() == "z"));
    assert!(run(AppEvent::DeleteAlbumRequested { ids: vec![] }, vec![]).is_empty());
}

#[test]
fn every_failure_has_its_words() {
    let album = || AlbumId::from_raw("x".to_string());
    let ids = || vec![id("a")];
    let complaint = |event: AppEvent| match run(event, vec![failed()]).remove(0) {
        AppEvent::Error(m) => m,
        _ => panic!("no error"),
    };
    assert_eq!(
        complaint(AppEvent::TrashRequested { ids: ids() }),
        "Failed to move to trash: database error: locked"
    );
    assert_eq!(
        complaint(AppEvent::RestoreRequested { ids: ids() }),
        "Failed to restore: database error: locked"
    );
    assert_eq!(
        complaint(AppEvent::DeleteRequested { ids: ids() }),
        "Failed to delete: database error: locked"
    );
    assert_eq!(
        complaint(AppEvent::FavoriteRequested { ids: ids(), state: false }),
        "Failed to update favourite: database error: locked"
    );
    assert_eq!(
        complaint(AppEvent::RemoveFromAlbumRequested { album_id: album(), ids: ids() }),
        "Failed to remove from album: database error: locked"
    );
    assert_eq!(
        complaint(AppEvent::AddToAlbumRequested { album_id: album(), ids: ids() }),
        "Failed to add to album: database error: locked"
    );
    assert_eq!(
        complaint(AppEvent::CreateAlbumRequested { name: "n".to_string(), ids: ids() }),
        "Failed to create album: database error: locked"
    );
    assert_eq!(
        complaint(AppEvent::EmptyTrashRequested),
        "Failed to empty trash: database error: locked"
    );
    assert_eq!(
        complaint(AppEvent::RestoreAllTrashRequested),
        "Failed to restore trash: database error: locked"
    );
    let told = run(
        AppEvent::EmptyTrashRequested,
        vec![CommandOutcome::TrashListed(vec![item("a")]), failed()],
    );
    assert!(matches!(told[0], AppEvent::Error(ref m)
        if m == "Failed to empty trash: database error: locked"));
}

#[test]
fn only_requests_are_commands() {
    assert!(is_command(&AppEvent::EmptyTrashRequested));
    assert!(is_command(&AppEvent::TrashRequested { ids: vec![] }));
    assert!(!is_command(&AppEvent::Trashed { ids: vec![] }));
    assert!(!is_command(&AppEvent::Error("x".to_string())));
    assert!(run(AppEvent::Error("x".to_string()), vec![]).is_empty());
}
