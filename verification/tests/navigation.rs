use drive_tui::keys::{
    handle_delete_confirm_key, handle_input_key, handle_key_event, handle_normal_key,
    handle_quit_confirm_key, Key, KeyPress,
};
use drive_tui::listing::RemoteFile;
use drive_tui::nav::{App, Command, FolderState, InputMode, ListQuery, StartError, TickReport};
use drive_tui::progress::{DownloadProgress, UploadProgress};

fn file(id: &str, name: &str, is_folder: bool) -> RemoteFile {
    RemoteFile { id: Some(id.to_string()), name: Some(name.to_string()), is_folder, size: Some(10) }
}

fn press(key: Key) -> KeyPress {
    KeyPress { key, control: false }
}

fn ch(c: char) -> KeyPress {
    press(Key::Char(c))
}

/// An app at the root that lists the folder `docs` and the file `a.txt`.
fn app_at_root() -> App {
    let mut app = App::new(0);
    app.reload(&vec![file("f1", "a.txt", false), file("d1", "docs", true)]);
    app
}

fn select(app: &mut App, index: usize) {
    while app.selected() != index {
        app.select_next();
    }
}

#[test]
fn new_app_is_at_root_and_ready() {
    let app = App::new(42);
    assert!(app.items().is_empty());
    assert_eq!(app.selected(), 0);
    assert!(app.folder_stack().is_empty());
    assert_eq!(app.current_folder_id(), &None);
    assert_eq!(app.current_folder_name(), "root");
    assert_eq!(app.status(), "Ready");
    assert_eq!(app.input_mode(), InputMode::Normal);
    assert_eq!(app.input(), "");
    assert!(app.upload_job().is_none());
    assert!(app.download_job().is_none());
    assert!(app.upload_picker().is_none());
    assert!(app.pending_delete().is_none());
    assert!(app.blink_on());
    assert!(!app.exit_requested());
    assert!(app.can_quit());
    assert!(!app.should_exit());
    assert_eq!(app.list_query(), ListQuery::RootNotTrashed);
}

#[test]
fn reload_sorts_and_resets_selection_and_status() {
    let mut app = app_at_root();
    app.select_next();
    app.start_delete_confirm();
    app.reload(&vec![file("f2", "b.txt", false), file("d2", "Archive", true)]);
    let names: Vec<&str> = app.items().iter().map(|i| i.name.as_str()).collect();
    assert_eq!(names, vec!["/..", "Archive", "b.txt"]);
    assert_eq!(app.selected(), 0);
    assert_eq!(app.status(), "Ready");
}

#[test]
fn selection_wraps_in_both_directions() {
    let mut app = app_at_root();
    assert_eq!(handle_normal_key(&mut app, press(Key::Up)), Command::Nothing);
    assert_eq!(app.selected(), 2);
    handle_normal_key(&mut app, press(Key::Down));
    assert_eq!(app.selected(), 0);
    handle_normal_key(&mut app, press(Key::Down));
    assert_eq!(app.selected(), 1);
}

#[test]
fn selection_on_empty_list_stays() {
    let mut app = App::new(0);
    app.select_next();
    app.select_previous();
    assert_eq!(app.selected(), 0);
}

#[test]
fn open_folder_pushes_frame_and_asks_for_reload() {
    let mut app = app_at_root();
    select(&mut app, 1);
    assert_eq!(handle_normal_key(&mut app, press(Key::Enter)), Command::Reload);
    assert_eq!(app.current_folder_id(), &Some("d1".to_string()));
    assert_eq!(app.current_folder_name(), "docs");
    assert_eq!(app.folder_stack(), &vec![FolderState { id: None, name: "root".to_string() }]);
    assert_eq!(app.list_query(), ListQuery::FilesInFolder { folder_id: "d1".to_string() });
}

#[test]
fn open_file_is_refused_with_status() {
    let mut app = app_at_root();
    select(&mut app, 2);
    assert_eq!(handle_normal_key(&mut app, press(Key::Right)), Command::Nothing);
    assert_eq!(app.status(), "Not a folder");
    assert!(app.folder_stack().is_empty());
    assert_eq!(app.current_folder_id(), &None);
}

#[test]
fn open_without_rows_reports_no_selection() {
    let mut app = App::new(0);
    assert_eq!(app.open_selected(), Command::Nothing);
    assert_eq!(app.status(), "No selection");
}

#[test]
fn open_folder_without_identifier_is_refused() {
    let mut app = App::new(0);
    app.reload(&vec![RemoteFile { id: None, name: Some("ghost".to_string()), is_folder: true, size: None }]);
    select(&mut app, 1);
    assert_eq!(app.open_selected(), Command::Nothing);
    assert_eq!(app.status(), "Missing folder id");
    assert!(app.folder_stack().is_empty());
}

#[test]
fn go_back_at_root_only_changes_status() {
    let mut app = app_at_root();
    select(&mut app, 2);
    let items_before = app.items().clone();
    assert_eq!(handle_normal_key(&mut app, ch('b')), Command::Nothing);
    assert_eq!(app.status(), "Already at root");
    assert_eq!(app.items(), &items_before);
    assert_eq!(app.selected(), 2);
    assert_eq!(app.current_folder_id(), &None);
    assert_eq!(app.current_folder_name(), "root");
    assert!(app.folder_stack().is_empty());
    assert_eq!(app.input_mode(), InputMode::Normal);
}

#[test]
fn open_parent_marker_at_root_is_already_at_root() {
    let mut app = app_at_root();
    assert_eq!(handle_normal_key(&mut app, press(Key::Enter)), Command::Nothing);
    assert_eq!(app.status(), "Already at root");
}

#[test]
fn open_then_back_restores_folder() {
    let mut app = app_at_root();
    select(&mut app, 1);
    assert_eq!(app.open_selected(), Command::Reload);
    app.reload(&vec![file("d2", "inner", true)]);
    select(&mut app, 1);
    assert_eq!(app.open_selected(), Command::Reload);
    app.reload(&Vec::new());
    assert_eq!(app.folder_stack().len(), 2);
    assert_eq!(app.current_folder_id(), &Some("d2".to_string()));

    assert_eq!(handle_normal_key(&mut app, press(Key::Left)), Command::Reload);
    assert_eq!(app.current_folder_id(), &Some("d1".to_string()));
    assert_eq!(app.current_folder_name(), "docs");
    assert_eq!(app.folder_stack().len(), 1);

    // the parent marker leads up as well
    app.reload(&vec![file("d2", "inner", true), file("f9", "new.txt", false)]);
    assert_eq!(app.items().len(), 3);
    assert_eq!(app.open_selected(), Command::Reload);
    assert_eq!(app.current_folder_id(), &None);
    assert_eq!(app.current_folder_name(), "root");
    assert!(app.folder_stack().is_empty());
}

#[test]
fn refresh_key_asks_for_reload() {
    let mut app = app_at_root();
    assert_eq!(handle_normal_key(&mut app, ch('r')), Command::Reload);
    assert_eq!(app.status(), "Ready");
}

#[test]
fn unknown_key_does_nothing() {
    let mut app = app_at_root();
    assert_eq!(handle_normal_key(&mut app, ch('z')), Command::Nothing);
    assert_eq!(handle_normal_key(&mut app, press(Key::Other)), Command::Nothing);
    assert_eq!(app.status(), "Ready");
    assert_eq!(app.input_mode(), InputMode::Normal);
}

#[test]
fn delete_request_on_parent_marker_is_refused() {
    let mut app = app_at_root();
    assert_eq!(handle_normal_key(&mut app, ch('x')), Command::Nothing);
    assert_eq!(app.status(), "Cannot delete parent entry");
    assert_eq!(app.input_mode(), InputMode::Normal);
    assert!(app.pending_delete().is_none());
}

#[test]
fn delete_request_without_identifier_is_refused() {
    let mut app = App::new(0);
    app.reload(&vec![RemoteFile { id: None, name: Some("x".to_string()), is_folder: false, size: None }]);
    select(&mut app, 1);
    assert_eq!(handle_normal_key(&mut app, press(Key::Delete)), Command::Nothing);
    assert_eq!(app.status(), "Missing file id");
    assert_eq!(app.input_mode(), InputMode::Normal);
}

#[test]
fn delete_request_without_rows_reports_no_selection() {
    let mut app = App::new(0);
    app.start_delete_confirm();
    assert_eq!(app.status(), "No selection");
}

#[test]
fn delete_confirmed_asks_for_delete_then_reload() {
    let mut app = app_at_root();
    select(&mut app, 1);
    handle_normal_key(&mut app, ch('x'));
    assert_eq!(app.input_mode(), InputMode::DeleteConfirm);
    assert_eq!(app.status(), "Confirm delete");
    assert_eq!(app.pending_delete().as_ref().unwrap().id, "d1");

    let c = handle_key_event(&mut app, ch('y'));
    assert_eq!(c, Command::Delete { file_id: "d1".to_string(), recursive: true });
    assert_eq!(app.input_mode(), InputMode::Normal);
    assert!(app.pending_delete().is_none());

    assert_eq!(app.delete_finished(Ok(())), Command::Reload);
    assert_eq!(app.status(), "Delete completed");
}

#[test]
fn delete_of_a_file_is_not_recursive() {
    let mut app = app_at_root();
    select(&mut app, 2);
    app.start_delete_confirm();
    let c = handle_delete_confirm_key(&mut app, ch('Y'));
    assert_eq!(c, Command::Delete { file_id: "f1".to_string(), recursive: false });
}

#[test]
fn delete_failure_is_shown_and_does_not_reload() {
    let mut app = app_at_root();
    let items_before = app.items().clone();
    assert_eq!(app.delete_finished(Err("forbidden".to_string())), Command::Nothing);
    assert_eq!(app.status(), "Delete failed: forbidden");
    assert_eq!(app.items(), &items_before);
}

#[test]
fn delete_cancelled_has_no_side_effect() {
    for key in [press(Key::Esc), ch('q'), ch('n'), ch('N')] {
        let mut app = app_at_root();
        select(&mut app, 2);
        app.start_delete_confirm();
        assert_eq!(handle_key_event(&mut app, key), Command::Nothing);
        assert_eq!(app.input_mode(), InputMode::Normal);
        assert_eq!(app.status(), "Delete cancelled");
        assert!(app.pending_delete().is_none());
        assert_eq!(app.items().len(), 3);
    }
}

#[test]
fn delete_confirm_ignores_other_keys() {
    let mut app = app_at_root();
    select(&mut app, 2);
    app.start_delete_confirm();
    assert_eq!(handle_key_event(&mut app, ch('k')), Command::Nothing);
    assert_eq!(app.input_mode(), InputMode::DeleteConfirm);
    assert!(app.pending_delete().is_some());
}

#[test]
fn confirming_without_pending_row_reports_nothing_to_delete() {
    let mut app = app_at_root();
    assert_eq!(handle_delete_confirm_key(&mut app, ch('y')), Command::Nothing);
    assert_eq!(app.status(), "Nothing to delete");
    assert_eq!(app.input_mode(), InputMode::Normal);
}

#[test]
fn quit_is_immediate_without_jobs() {
    let mut app = app_at_root();
    assert_eq!(handle_key_event(&mut app, ch('q')), Command::Quit);
    assert_eq!(app.input_mode(), InputMode::Normal);
}

#[test]
fn quit_waits_for_confirmation_while_a_job_runs() {
    let mut app = app_at_root();
    app.start_upload_job("/tmp/x".to_string()).unwrap();
    select(&mut app, 2);
    app.download_selected(None).unwrap();
    assert!(app.has_active_transfer());

    assert_eq!(handle_key_event(&mut app, ch('q')), Command::Nothing);
    assert_eq!(app.input_mode(), InputMode::QuitConfirm);
    assert_eq!(app.status(), "Confirm quit");
    assert!(!app.exit_requested());
    assert!(!app.upload_cancelled());

    assert_eq!(handle_key_event(&mut app, ch('y')), Command::Nothing);
    assert_eq!(app.input_mode(), InputMode::Normal);
    assert!(app.exit_requested());
    assert!(app.upload_cancelled());
    assert!(app.download_cancelled());
    assert!(app.upload_job().as_ref().unwrap().cancel);
    assert!(app.download_job().as_ref().unwrap().cancel);
    assert!(!app.should_exit());

    // the upload ends, the download still runs
    let mut up = UploadProgress::new();
    up.finish(Some("Cancelled".to_string()));
    app.tick(10, Some(up));
    assert!(app.upload_job().is_none());
    assert!(!app.should_exit());
    assert!(app.download_cancelled());

    let mut down = DownloadProgress::new("a.txt".to_string());
    down.finish(Some("Cancelled".to_string()));
    app.tick_download(Some(down));
    assert!(app.download_job().is_none());
    assert!(app.should_exit());
}

#[test]
fn quit_confirmation_declined_returns_to_normal() {
    for key in [press(Key::Esc), ch('n'), ch('N'), ch('x'), press(Key::Enter)] {
        let mut app = app_at_root();
        app.start_upload_job("/tmp/x".to_string()).unwrap();
        handle_key_event(&mut app, ch('q'));
        assert_eq!(handle_quit_confirm_key(&mut app, key), Command::Nothing);
        assert_eq!(app.input_mode(), InputMode::Normal);
        assert_eq!(app.status(), "Quit cancelled");
        assert!(!app.exit_requested());
        assert!(!app.upload_cancelled());
    }
}

#[test]
fn request_exit_without_jobs_exits_at_once() {
    let mut app = App::new(0);
    app.request_exit();
    assert!(app.exit_requested());
    assert!(app.should_exit());
    assert!(!app.upload_cancelled());
    assert!(!app.download_cancelled());
}

#[test]
fn second_upload_is_rejected_and_leaves_the_job_alone() {
    let mut app = app_at_root();
    let first = app.start_upload_job("/data/a".to_string());
    assert_eq!(first, Ok(Command::Upload { path: "/data/a".to_string(), parent: None }));
    assert_eq!(app.status(), "Upload started");
    let mut progress = UploadProgress::new();
    progress.begin_single("a".to_string(), 100);
    progress.current_bytes = 40;
    app.tick(0, Some(progress.clone()));
    let job_before = app.upload_job().clone();

    assert_eq!(app.start_upload_job("/data/b".to_string()), Err(StartError::AlreadyRunning));
    assert_eq!(app.status(), "Upload already in progress");
    assert_eq!(app.upload_job(), &job_before);
    assert_eq!(app.upload_job().as_ref().unwrap().progress, progress);
}

#[test]
fn upload_goes_into_the_folder_shown() {
    let mut app = app_at_root();
    select(&mut app, 1);
    app.open_selected();
    let c = app.start_upload_job("/data/a".to_string());
    assert_eq!(c, Ok(Command::Upload { path: "/data/a".to_string(), parent: Some("d1".to_string()) }));
    let job = app.upload_job().as_ref().unwrap();
    assert_eq!(job.progress, UploadProgress::new());
    assert!(!job.cancel);
}

#[test]
fn second_download_is_rejected_and_leaves_the_job_alone() {
    let mut app = app_at_root();
    select(&mut app, 2);
    let first = app.download_selected(Some("/tmp".to_string()));
    assert_eq!(
        first,
        Ok(Command::Download { file_id: "f1".to_string(), destination: Some("/tmp".to_string()) })
    );
    assert_eq!(app.status(), "Download started");
    let job_before = app.download_job().clone();
    assert_eq!(job_before.as_ref().unwrap().progress, DownloadProgress::new("a.txt".to_string()));

    assert_eq!(app.download_selected(None), Err(StartError::AlreadyRunning));
    assert_eq!(app.status(), "Download already in progress");
    assert_eq!(app.download_job(), &job_before);
}

#[test]
fn download_of_a_folder_is_refused() {
    let mut app = app_at_root();
    select(&mut app, 1);
    assert_eq!(app.download_selected(None), Err(StartError::IsFolder));
    assert_eq!(app.status(), "Select a file to download");
    assert!(app.download_job().is_none());
}

#[test]
fn download_without_identifier_is_refused() {
    let mut app = App::new(0);
    app.reload(&vec![RemoteFile { id: None, name: Some("x".to_string()), is_folder: false, size: None }]);
    select(&mut app, 1);
    assert_eq!(app.download_selected(None), Err(StartError::MissingId));
    assert_eq!(app.status(), "Missing file id");
    assert!(app.download_job().is_none());
}

#[test]
fn download_without_rows_is_refused() {
    let mut app = App::new(0);
    assert_eq!(app.download_selected(None), Err(StartError::NoSelection));
    assert_eq!(app.status(), "No selection");
}

#[test]
fn download_prompt_collects_text() {
    let mut app = app_at_root();
    select(&mut app, 2);
    assert_eq!(handle_key_event(&mut app, ch('d')), Command::Nothing);
    assert_eq!(app.input_mode(), InputMode::DownloadDestination);
    assert_eq!(app.status(), "Download destination (dir)");
    for c in "/tmq".chars() {
        handle_key_event(&mut app, ch(c));
    }
    handle_key_event(&mut app, press(Key::Backspace));
    handle_key_event(&mut app, ch('p'));
    handle_key_event(&mut app, KeyPress { key: Key::Char('c'), control: true });
    handle_key_event(&mut app, press(Key::Left));
    assert_eq!(app.input(), "/tmp");
    let c = handle_key_event(&mut app, press(Key::Enter));
    assert_eq!(
        c,
        Command::Download { file_id: "f1".to_string(), destination: Some("/tmp".to_string()) }
    );
    assert_eq!(app.input_mode(), InputMode::Normal);
    assert_eq!(app.input(), "");
    assert_eq!(app.status(), "Download completed");
    assert_eq!(
        app.download_job().as_ref().unwrap().progress,
        DownloadProgress::new("a.txt".to_string())
    );
}

#[test]
fn download_prompt_trims_the_destination() {
    let mut app = app_at_root();
    select(&mut app, 2);
    handle_key_event(&mut app, ch('d'));
    for c in "  /srv/my files \t".chars() {
        handle_key_event(&mut app, ch(c));
    }
    let c = handle_input_key(&mut app, press(Key::Enter));
    assert_eq!(
        c,
        Command::Download {
            file_id: "f1".to_string(),
            destination: Some("/srv/my files".to_string()),
        }
    );
}

#[test]
fn blank_destination_means_working_directory() {
    for typed in ["", "   ", " \t "] {
        let mut app = app_at_root();
        select(&mut app, 2);
        handle_key_event(&mut app, ch('d'));
        for c in typed.chars() {
            handle_key_event(&mut app, ch(c));
        }
        let c = handle_key_event(&mut app, press(Key::Enter));
        assert_eq!(c, Command::Download { file_id: "f1".to_string(), destination: None });
    }
}

#[test]
fn download_prompt_returns_to_normal_even_if_the_start_fails() {
    let mut app = app_at_root();
    select(&mut app, 1);
    handle_key_event(&mut app, ch('d'));
    handle_key_event(&mut app, ch('x'));
    assert_eq!(handle_key_event(&mut app, press(Key::Enter)), Command::Nothing);
    assert_eq!(app.input_mode(), InputMode::Normal);
    assert_eq!(app.input(), "");
    assert_eq!(app.status(), "Select a file to download");
    assert!(app.download_job().is_none());
}

#[test]
fn download_prompt_escape_cancels() {
    let mut app = app_at_root();
    handle_key_event(&mut app, ch('d'));
    handle_key_event(&mut app, ch('x'));
    assert_eq!(handle_key_event(&mut app, press(Key::Esc)), Command::Nothing);
    assert_eq!(app.input_mode(), InputMode::Normal);
    assert_eq!(app.status(), "Cancelled");
    assert_eq!(app.input(), "");
}

#[test]
fn backspace_on_empty_input_does_nothing() {
    let mut app = app_at_root();
    handle_key_event(&mut app, ch('d'));
    handle_key_event(&mut app, press(Key::Backspace));
    assert_eq!(app.input(), "");
    assert_eq!(app.input_mode(), InputMode::DownloadDestination);
}

#[test]
fn entering_a_mode_clears_stale_text() {
    let mut app = app_at_root();
    app.start_input(InputMode::DownloadDestination, "first");
    handle_key_event(&mut app, ch('a'));
    assert_eq!(app.input(), "a");
    app.start_input(InputMode::DownloadDestination, "second");
    assert_eq!(app.input(), "");
    assert_eq!(app.status(), "second");
}

#[test]
fn commit_in_another_mode_starts_nothing() {
    let mut app = app_at_root();
    select(&mut app, 2);
    assert_eq!(handle_input_key(&mut app, press(Key::Enter)), Command::Nothing);
    assert!(app.download_job().is_none());
    assert_eq!(app.input_mode(), InputMode::Normal);
}

#[test]
fn tick_blinks_every_half_second() {
    let mut app = App::new(1_000);
    app.tick(1_499, None);
    assert!(app.blink_on());
    app.tick(1_500, None);
    assert!(!app.blink_on());
    app.tick(1_900, None);
    assert!(!app.blink_on());
    app.tick(2_000, None);
    assert!(app.blink_on());
    // a clock that went back changes nothing
    app.tick(10, None);
    assert!(app.blink_on());
}

#[test]
fn tick_without_jobs_reports_nothing() {
    let mut app = app_at_root();
    let report = app.tick(1, Some(UploadProgress::new()));
    assert_eq!(report, TickReport { upload_ended: false, reload: false });
    assert!(!app.tick_download(Some(DownloadProgress::new("x".to_string()))));
    assert!(app.upload_job().is_none());
    assert!(app.download_job().is_none());
    assert_eq!(app.status(), "Ready");
}

#[test]
fn tick_keeps_a_running_upload_and_shows_its_progress() {
    let mut app = app_at_root();
    app.start_upload_job("/x".to_string()).unwrap();
    let mut p = UploadProgress::new();
    p.begin_single("x".to_string(), 9);
    let report = app.tick(1, Some(p.clone()));
    assert_eq!(report, TickReport { upload_ended: false, reload: false });
    assert_eq!(app.upload_job().as_ref().unwrap().progress, p);
    assert_eq!(app.status(), "Upload started");
    // without news the job shows what it showed
    app.tick(2, None);
    assert_eq!(app.upload_job().as_ref().unwrap().progress, p);
}

#[test]
fn tick_reconciles_a_finished_upload_and_asks_for_reload() {
    let mut app = app_at_root();
    app.start_upload_job("/x".to_string()).unwrap();
    let mut p = UploadProgress::new();
    p.finish(None);
    let report = app.tick(1, Some(p));
    assert_eq!(report, TickReport { upload_ended: true, reload: true });
    assert!(app.upload_job().is_none());
    assert_eq!(app.status(), "Upload completed");
    app.refresh_failed("offline");
    assert_eq!(app.status(), "Upload completed (refresh failed: offline)");
}

#[test]
fn tick_reports_a_failed_upload_without_reload() {
    let mut app = app_at_root();
    app.start_upload_job("/x".to_string()).unwrap();
    let mut p = UploadProgress::new();
    p.finish(Some("quota".to_string()));
    let report = app.tick(1, Some(p));
    assert_eq!(report, TickReport { upload_ended: true, reload: false });
    assert_eq!(app.status(), "Upload failed: quota");
    assert!(app.upload_job().is_none());
}

#[test]
fn tick_leaves_the_download_to_its_second_half() {
    let mut app = app_at_root();
    select(&mut app, 2);
    app.download_selected(None).unwrap();
    let before = app.download_job().clone();
    let report = app.tick(1, None);
    assert_eq!(report, TickReport { upload_ended: false, reload: false });
    assert_eq!(app.download_job(), &before);
}

#[test]
fn tick_keeps_a_running_download_and_shows_its_progress() {
    let mut app = app_at_root();
    select(&mut app, 2);
    app.download_selected(None).unwrap();
    let mut p = DownloadProgress::new("a.txt".to_string());
    p.current_bytes = 3;
    assert!(!app.tick_download(Some(p.clone())));
    assert_eq!(app.download_job().as_ref().unwrap().progress, p);
    assert!(!app.download_job().as_ref().unwrap().cancel);
    assert_eq!(app.status(), "Download started");
    assert!(!app.tick_download(None));
    assert_eq!(app.download_job().as_ref().unwrap().progress, p);
}

#[test]
fn tick_reconciles_a_finished_download() {
    let mut app = app_at_root();
    select(&mut app, 2);
    app.download_selected(None).unwrap();
    let mut p = DownloadProgress::new("a.txt".to_string());
    p.finish(None);
    assert!(app.tick_download(Some(p)));
    assert!(app.download_job().is_none());
    assert_eq!(app.status(), "Download completed");
}

#[test]
fn tick_reports_a_failed_download() {
    let mut app = app_at_root();
    select(&mut app, 2);
    app.download_selected(None).unwrap();
    let mut p = DownloadProgress::new("a.txt".to_string());
    p.finish(Some("Cancelled".to_string()));
    assert!(app.tick_download(Some(p)));
    assert_eq!(app.status(), "Download failed: Cancelled");
    assert!(app.download_job().is_none());
}

#[test]
fn both_jobs_ending_in_one_iteration_are_both_reconciled() {
    let mut app = app_at_root();
    app.start_upload_job("/x".to_string()).unwrap();
    select(&mut app, 2);
    app.download_selected(None).unwrap();
    app.request_exit();
    let mut up = UploadProgress::new();
    up.finish(None);
    let mut down = DownloadProgress::new("a.txt".to_string());
    down.finish(None);

    let report = app.tick(1, Some(up));
    assert_eq!(report, TickReport { upload_ended: true, reload: true });
    assert_eq!(app.status(), "Upload completed");
    app.reload(&Vec::new());
    assert_eq!(app.status(), "Ready");
    assert!(app.tick_download(Some(down)));
    assert_eq!(app.status(), "Download completed");
    assert!(app.upload_job().is_none());
    assert!(app.download_job().is_none());
    assert!(app.can_quit());
    assert!(app.should_exit());
}

#[test]
fn both_jobs_failing_in_one_iteration_are_both_reconciled() {
    let mut app = app_at_root();
    app.start_upload_job("/x".to_string()).unwrap();
    select(&mut app, 2);
    app.download_selected(None).unwrap();
    let mut up = UploadProgress::new();
    up.finish(Some("e1".to_string()));
    let mut down = DownloadProgress::new("a.txt".to_string());
    down.finish(Some("e2".to_string()));
    let report = app.tick(1, Some(up));
    assert_eq!(report, TickReport { upload_ended: true, reload: false });
    assert_eq!(app.status(), "Upload failed: e1");
    assert!(app.tick_download(Some(down)));
    assert_eq!(app.status(), "Download failed: e2");
    assert!(app.can_quit());
}

#[test]
fn failed_listing_only_changes_the_status() {
    let mut app = app_at_root();
    select(&mut app, 1);
    assert_eq!(app.open_selected(), Command::Reload);
    app.reload(&vec![file("f7", "inside.txt", false)]);
    select(&mut app, 1);
    let items_before = app.items().clone();
    let stack_before = app.folder_stack().clone();

    app.reload_failed("connection refused");
    assert_eq!(app.status(), "Error: connection refused");
    assert_eq!(app.items(), &items_before);
    assert_eq!(app.items().iter().filter(|i| i.is_parent).count(), 1);
    assert_eq!(app.selected(), 1);
    assert_eq!(app.folder_stack(), &stack_before);
    assert_eq!(app.current_folder_id(), &Some("d1".to_string()));
    assert_eq!(app.current_folder_name(), "docs");
    assert_eq!(app.input_mode(), InputMode::Normal);
}

#[test]
fn upload_key_asks_to_open_the_picker() {
    let mut app = app_at_root();
    assert_eq!(handle_key_event(&mut app, ch('u')), Command::OpenPicker);
    assert_eq!(app.input_mode(), InputMode::Normal);
    app.start_upload_picker(Err("denied".to_string()));
    assert_eq!(app.status(), "Failed to open upload picker: denied");
    assert_eq!(app.input_mode(), InputMode::Normal);
    assert!(app.upload_picker().is_none());
}
