use fs_gui_engine_iced::portal::{open_file_outcome, open_file_result, saved_path, NOTIFICATION_ID};
use fs_gui_engine_iced::NotificationLevel;
use std::path::PathBuf;

#[test]
fn open_result_keeps_local_paths_in_order() {
    let r = open_file_result(vec![
        Some(PathBuf::from("/tmp/a.png")),
        None,
        Some(PathBuf::from("/tmp/b.png")),
    ]);
    assert_eq!(r.paths, vec![PathBuf::from("/tmp/a.png"), PathBuf::from("/tmp/b.png")]);
}

#[test]
fn open_result_empty_when_cancelled() {
    assert!(open_file_result(vec![]).paths.is_empty());
    assert!(open_file_result(vec![None]).paths.is_empty());
}

#[test]
fn saved_path_first_entry_or_nothing() {
    assert_eq!(saved_path(None), None);
    assert_eq!(saved_path(Some(vec![])), None);
    assert_eq!(
        saved_path(Some(vec![Some(PathBuf::from("/tmp/out.txt")), Some(PathBuf::from("/x"))])),
        Some(PathBuf::from("/tmp/out.txt"))
    );
    assert_eq!(saved_path(Some(vec![None, Some(PathBuf::from("/x"))])), None);
}

#[test]
fn notification_levels_and_id() {
    assert_ne!(NotificationLevel::Low, NotificationLevel::Urgent);
    assert_eq!(NOTIFICATION_ID, "fs-notification");
}

#[test]
fn cancelled_open_dialog_selects_nothing() {
    assert!(open_file_outcome(None).paths.is_empty());
    let r = open_file_outcome(Some(vec![None, Some(PathBuf::from("/tmp/c.txt"))]));
    assert_eq!(r.paths, vec![PathBuf::from("/tmp/c.txt")]);
}
