use dungeon_rs::cli::assets::{
    added_message, check_max_amount, execute_remove, remove_outcome, CommandError, ProgressBar,
    ProgressTracker,
};
use dungeon_rs::indexing::{AssetPackIndexCompletedEvent, AssetPackIndexProgressEvent};
use dungeon_rs::library::{AssetLibrary, AssetLibraryError, DeletePackStep};
use dungeon_rs::pack::AssetPack;

#[test]
fn zero_results_are_refused() {
    let e = check_max_amount(0).unwrap_err();
    assert!(matches!(e, CommandError::ZeroMaxAmount));
    assert_eq!(e.message(), "The maximum amount of entries returned cannot be 0");
    assert!(check_max_amount(100).is_ok());
}

#[test]
fn added_message_names_the_pack() {
    assert_eq!(added_message(&Some("Forest".to_string()), "/p", "abc"), "Added Forest as 'abc' to library");
    assert_eq!(added_message(&None, "/p", "abc"), "Added /p as 'abc' to library");
}

#[test]
fn remove_fails_when_the_library_does_not_load() {
    let r = execute_remove(Err(AssetLibraryError::ReadFile("gone".to_string())), &"id".to_string());
    let e = r.unwrap_err();
    assert_eq!(e.message(), "Failed to load asset library");
}

#[test]
fn remove_registered_pack() {
    let mut library = AssetLibrary::new();
    let pack = AssetPack::new("/packs/a", "/cache", None);
    let id = library.add_pack(pack, "/cache".to_string());
    let (mut library, step) = execute_remove(Ok(library), &id).unwrap();
    assert!(matches!(step, DeletePackStep::RemoveFiles { .. }));
    assert!(remove_outcome(library.finish_delete_pack(&id, Ok(()))).is_ok());
    assert!(!library.is_pack_registered(&id));
}

#[test]
fn remove_unknown_pack() {
    let (_, step) = execute_remove(Ok(AssetLibrary::new()), &"x".to_string()).unwrap();
    match step {
        DeletePackStep::Failed(e) => {
            let err = remove_outcome(Err(e)).unwrap_err();
            assert_eq!(err.message(), "Failed to delete asset pack");
        }
        other => panic!("unexpected {other:?}"),
    }
}

#[test]
fn get_pack_message_names_the_id() {
    let e = CommandError::GetPack("abc".to_string(), AssetLibraryError::NotFound("abc".to_string()));
    assert_eq!(e.message(), "Failed to get pack with id 'abc'");
}

#[test]
fn progress_bars_follow_events() {
    let ids = vec!["a".to_string(), "b".to_string()];
    let mut tracker = ProgressTracker::new(&ids);
    assert!(tracker.tracks(&"a".to_string()));
    assert!(!tracker.tracks(&"c".to_string()));
    tracker.on_progress(&AssetPackIndexProgressEvent { id: "a".to_string(), current: 2, total: 5 });
    assert_eq!(tracker.bar(&"a".to_string()), Some(ProgressBar { length: 5, position: 2, finished: false }));
    tracker.on_completed(&AssetPackIndexCompletedEvent { id: "a".to_string() });
    assert_eq!(tracker.bar(&"a".to_string()), Some(ProgressBar { length: 5, position: 2, finished: true }));
    assert_eq!(tracker.bar(&"b".to_string()), Some(ProgressBar { length: 0, position: 0, finished: false }));
}
