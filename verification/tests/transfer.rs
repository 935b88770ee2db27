use drive_tui::download::{
    check_destination, check_final_path, check_record, verify_checksum, DownloadError,
    DownloadTarget, Receiver, RemoteRecord,
};
use drive_tui::download_run::{DownloadAction, DownloadEvent, DownloadRun, Stage};
use drive_tui::plan::{ids_needed, plan_tree, LocalKind, LocalNode, PlanError};
use drive_tui::progress::{DownloadProgress, ProgressReader, StreamError, UploadProgress};
use drive_tui::upload::{
    check_cancelled, retry_policy, RetryPolicy, UploadError, UploadRun, UploadStep,
};

fn record() -> RemoteRecord {
    RemoteRecord {
        name: Some("report.pdf".to_string()),
        size: Some(2_048),
        is_folder: false,
        is_shortcut: false,
        checksum: Some("abc123".to_string()),
    }
}

fn leaf(name: &str, path: &str, size: u64) -> LocalNode {
    LocalNode { name: name.to_string(), path: path.to_string(), kind: LocalKind::File { size } }
}

fn dir(name: &str, path: &str, children: Vec<LocalNode>) -> LocalNode {
    LocalNode { name: name.to_string(), path: path.to_string(), kind: LocalKind::Dir { children } }
}

fn link(name: &str, path: &str) -> LocalNode {
    LocalNode { name: name.to_string(), path: path.to_string(), kind: LocalKind::Other }
}

/// photos/
///   a.jpg            (10)
///   2023/
///     b.jpg          (20)
///     raw/
///       c.raw        (30)
///   link             (a symbolic link)
///   2024/
///   z.jpg            (40)
fn photos() -> LocalNode {
    dir(
        "photos",
        "/p",
        vec![
            leaf("a.jpg", "/p/a.jpg", 10),
            dir(
                "2023",
                "/p/2023",
                vec![
                    leaf("b.jpg", "/p/2023/b.jpg", 20),
                    dir("raw", "/p/2023/raw", vec![leaf("c.raw", "/p/2023/raw/c.raw", 30)]),
                ],
            ),
            link("link", "/p/link"),
            dir("2024", "/p/2024", Vec::new()),
            leaf("z.jpg", "/p/z.jpg", 40),
        ],
    )
}

fn id_list(n: usize) -> Vec<String> {
    (0..n).map(|i| format!("id{}", i)).collect()
}

#[test]
fn record_of_a_file_gives_the_target() {
    let mut progress = DownloadProgress::new("listed name".to_string());
    let target = check_record(&record(), &mut progress);
    assert_eq!(
        target,
        Ok(DownloadTarget {
            file_name: "report.pdf".to_string(),
            total_bytes: Some(2_048),
            checksum: Some("abc123".to_string()),
        })
    );
    assert_eq!(progress.file_name, "report.pdf");
    assert_eq!(progress.total_bytes, Some(2_048));
    assert!(!progress.done);
    assert_eq!(progress.error, None);
}

#[test]
fn record_with_negative_size_has_unknown_total() {
    let mut progress = DownloadProgress::new("x".to_string());
    let target = check_record(&RemoteRecord { size: Some(-1), ..record() }, &mut progress).unwrap();
    assert_eq!(target.total_bytes, None);
    let target = check_record(&RemoteRecord { size: None, ..record() }, &mut progress).unwrap();
    assert_eq!(target.total_bytes, None);
    let target = check_record(&RemoteRecord { size: Some(0), ..record() }, &mut progress).unwrap();
    assert_eq!(target.total_bytes, Some(0));
}

#[test]
fn record_of_a_directory_is_refused() {
    let mut progress = DownloadProgress::new("x".to_string());
    let r = check_record(&RemoteRecord { is_folder: true, is_shortcut: true, ..record() }, &mut progress);
    assert_eq!(r, Err(DownloadError::IsDirectory));
    assert_eq!(r.unwrap_err().message(), "Selected item is a directory");
    assert_eq!(progress, DownloadProgress::new("x".to_string()));
}

#[test]
fn record_of_a_shortcut_is_refused() {
    let mut progress = DownloadProgress::new("x".to_string());
    let r = check_record(&RemoteRecord { is_shortcut: true, name: None, ..record() }, &mut progress);
    assert_eq!(r, Err(DownloadError::IsShortcut));
    assert_eq!(r.unwrap_err().message(), "Shortcuts are not supported in TUI download");
}

#[test]
fn record_without_name_is_refused() {
    let mut progress = DownloadProgress::new("x".to_string());
    let r = check_record(&RemoteRecord { name: None, ..record() }, &mut progress);
    assert_eq!(r, Err(DownloadError::Unnamed));
    assert_eq!(r.unwrap_err().message(), "File does not have a name");
}

#[test]
fn destination_must_exist_and_be_a_directory() {
    assert_eq!(check_destination("/tmp", true, true), Ok(()));
    let missing = check_destination("/nope", false, false).unwrap_err();
    assert_eq!(missing, DownloadError::DestinationMissing { path: "/nope".to_string() });
    assert_eq!(missing.message(), "Destination path '/nope' does not exist");
    let file = check_destination("/etc/hosts", true, false).unwrap_err();
    assert_eq!(file, DownloadError::DestinationNotDirectory { path: "/etc/hosts".to_string() });
    assert_eq!(file.message(), "Destination path '/etc/hosts' is not a directory");
}

#[test]
fn existing_file_is_never_overwritten() {
    assert_eq!(check_final_path("/tmp/report.pdf", false), Ok(()));
    let e = check_final_path("/tmp/report.pdf", true).unwrap_err();
    assert_eq!(e, DownloadError::FileExists { path: "/tmp/report.pdf".to_string() });
    assert_eq!(
        e.message(),
        "File '/tmp/report.pdf' already exists, delete it or use a different destination"
    );
}

#[test]
fn receiver_counts_chunks() {
    let mut progress = DownloadProgress::new("x".to_string());
    let mut receiver = Receiver::new();
    assert_eq!(receiver.on_chunk(false, Ok(100), &mut progress), Ok(100));
    assert_eq!(receiver.on_chunk(false, Ok(0), &mut progress), Ok(100));
    assert_eq!(receiver.on_chunk(false, Ok(28), &mut progress), Ok(128));
    assert_eq!(receiver.written, 128);
    assert_eq!(progress.current_bytes, 128);
}

#[test]
fn receiver_count_stops_at_the_largest_number() {
    let mut progress = DownloadProgress::new("x".to_string());
    let mut receiver = Receiver { written: u64::MAX - 5 };
    assert_eq!(receiver.on_chunk(false, Ok(10), &mut progress), Ok(u64::MAX));
    assert_eq!(progress.current_bytes, u64::MAX);
}

#[test]
fn receiver_passes_on_a_failed_chunk() {
    let mut progress = DownloadProgress::new("x".to_string());
    let mut receiver = Receiver::new();
    receiver.on_chunk(false, Ok(7), &mut progress).unwrap();
    let e = receiver.on_chunk(false, Err("connection reset".to_string()), &mut progress).unwrap_err();
    assert_eq!(e, DownloadError::Transport { message: "connection reset".to_string() });
    assert_eq!(e.message(), "connection reset");
    assert_eq!(receiver.written, 7);
    assert_eq!(progress.current_bytes, 7);
}

#[test]
fn receiver_ends_at_once_when_cancelled() {
    let mut progress = DownloadProgress::new("x".to_string());
    let mut receiver = Receiver::new();
    receiver.on_chunk(false, Ok(512), &mut progress).unwrap();
    let e = receiver.on_chunk(true, Ok(512), &mut progress).unwrap_err();
    assert_eq!(e, DownloadError::Cancelled);
    assert_eq!(e.message(), "Cancelled");
    assert_eq!(receiver.written, 512);
    // a cancelled job ends before a failed chunk is looked at
    let again = receiver.on_chunk(true, Err("late".to_string()), &mut progress);
    assert_eq!(again, Err(DownloadError::Cancelled));
}

#[test]
fn checksums_are_compared_where_one_is_reported() {
    assert_eq!(verify_checksum(&Some("abc123".to_string()), &"abc123".to_string()), Ok(()));
    assert_eq!(verify_checksum(&None, &"whatever".to_string()), Ok(()));
    let e = verify_checksum(&Some("abc123".to_string()), &"def456".to_string()).unwrap_err();
    assert_eq!(
        e,
        DownloadError::ChecksumMismatch {
            expected: "abc123".to_string(),
            actual: "def456".to_string(),
        }
    );
    assert_eq!(e.message(), "MD5 mismatch, expected: abc123, actual: def456");
}

/// Feeds the events to a fresh run and returns the actions they lead to.
fn play(
    destination: Option<&str>,
    events: Vec<DownloadEvent>,
    progress: &mut DownloadProgress,
) -> (DownloadRun, Vec<DownloadAction>) {
    let mut run = DownloadRun::new(destination.map(|d| d.to_string()));
    let mut actions = Vec::new();
    for event in events {
        let (next, action) = run.advance(event, progress);
        run = next;
        actions.push(action);
    }
    (run, actions)
}

fn up_to_the_body() -> Vec<DownloadEvent> {
    vec![
        DownloadEvent::Record(Ok(record())),
        DownloadEvent::Destination { exists: true, is_dir: true, resolved: Ok(()) },
        DownloadEvent::FinalPath { path: "/tmp/report.pdf".to_string(), exists: false },
        DownloadEvent::Stream(Ok(())),
    ]
}

fn chunk(len: usize) -> DownloadEvent {
    DownloadEvent::Chunk { cancelled: false, arrived: Ok(len) }
}

#[test]
fn download_run_starts_by_waiting_for_the_record() {
    let run = DownloadRun::new(Some("/tmp".to_string()));
    assert_eq!(run.stage, Stage::Record);
    assert_eq!(run.destination, Some("/tmp".to_string()));
    assert_eq!(run.target, None);
    assert_eq!(run.receiver.written, 0);
}

#[test]
fn download_run_promotes_a_complete_download() {
    let mut progress = DownloadProgress::new("listed".to_string());
    let mut events = up_to_the_body();
    events.extend(vec![
        chunk(1_000),
        DownloadEvent::Written(Ok(())),
        chunk(1_048),
        DownloadEvent::Written(Ok(())),
        DownloadEvent::End { checksum: "abc123".to_string() },
    ]);
    let (run, actions) = play(Some("/tmp"), events, &mut progress);
    assert_eq!(
        actions,
        vec![
            DownloadAction::ProbeDestination { path: Some("/tmp".to_string()) },
            DownloadAction::ProbeFinalPath { file_name: "report.pdf".to_string() },
            DownloadAction::OpenStream,
            DownloadAction::Receive,
            DownloadAction::Write,
            DownloadAction::Receive,
            DownloadAction::Write,
            DownloadAction::Receive,
            DownloadAction::Promote,
        ]
    );
    assert_eq!(run.stage, Stage::Rename);
    assert_eq!(progress.file_name, "report.pdf");
    assert_eq!(progress.total_bytes, Some(2_048));
    assert_eq!(progress.current_bytes, 2_048);
    assert!(!progress.done);
    assert_eq!(progress.error, None);

    let (run, action) = run.advance(DownloadEvent::Renamed(Ok(())), &mut progress);
    assert_eq!(action, DownloadAction::Finished);
    assert_eq!(run.stage, Stage::Ended);
    assert!(progress.done);
    assert_eq!(progress.error, None);

    let before = progress.clone();
    let (run, action) = run.advance(chunk(5), &mut progress);
    assert_eq!(action, DownloadAction::Finished);
    assert_eq!(run.stage, Stage::Ended);
    assert_eq!(progress, before);
}

#[test]
fn download_run_into_the_working_directory_skips_the_checks_of_the_destination() {
    let mut progress = DownloadProgress::new("x".to_string());
    let (run, actions) = play(
        None,
        vec![
            DownloadEvent::Record(Ok(record())),
            DownloadEvent::Destination { exists: false, is_dir: false, resolved: Ok(()) },
        ],
        &mut progress,
    );
    assert_eq!(
        actions,
        vec![
            DownloadAction::ProbeDestination { path: None },
            DownloadAction::ProbeFinalPath { file_name: "report.pdf".to_string() },
        ]
    );
    assert_eq!(run.stage, Stage::FinalPath);
}

#[test]
fn cancelled_download_discards_the_temp_file() {
    let mut progress = DownloadProgress::new("x".to_string());
    let mut events = up_to_the_body();
    events.extend(vec![
        chunk(512),
        DownloadEvent::Written(Ok(())),
        DownloadEvent::Chunk { cancelled: true, arrived: Ok(512) },
    ]);
    let (run, actions) = play(Some("/tmp"), events, &mut progress);
    assert_eq!(actions.last(), Some(&DownloadAction::Discard));
    assert!(!actions.contains(&DownloadAction::Promote));
    assert_eq!(run.stage, Stage::Ended);
    assert_eq!(run.receiver.written, 512);
    assert!(progress.done);
    assert_eq!(progress.error, Some("Cancelled".to_string()));
    assert_eq!(progress.current_bytes, 512);

    // whatever is reported afterwards, nothing is promoted
    let (_, action) = run.advance(DownloadEvent::End { checksum: "abc123".to_string() }, &mut progress);
    assert_eq!(action, DownloadAction::Finished);
    assert_eq!(progress.error, Some("Cancelled".to_string()));
}

#[test]
fn checksum_mismatch_is_an_integrity_error() {
    let mut progress = DownloadProgress::new("report.pdf".to_string());
    let mut events = up_to_the_body();
    events.extend(vec![
        chunk(2_048),
        DownloadEvent::Written(Ok(())),
        DownloadEvent::End { checksum: "def456".to_string() },
    ]);
    let (run, actions) = play(Some("/tmp"), events, &mut progress);
    assert_eq!(actions.last(), Some(&DownloadAction::Discard));
    assert!(!actions.contains(&DownloadAction::Promote));
    assert_eq!(run.stage, Stage::Ended);
    assert!(progress.done);
    assert_eq!(progress.error, Some("MD5 mismatch, expected: abc123, actual: def456".to_string()));
}

#[test]
fn download_without_reported_checksum_is_promoted() {
    let mut progress = DownloadProgress::new("x".to_string());
    let mut events = up_to_the_body();
    events[0] = DownloadEvent::Record(Ok(RemoteRecord { checksum: None, ..record() }));
    events.push(DownloadEvent::End { checksum: "anything".to_string() });
    let (_, actions) = play(None, events, &mut progress);
    assert_eq!(actions.last(), Some(&DownloadAction::Promote));
}

fn failure_of(destination: Option<&str>, events: Vec<DownloadEvent>) -> String {
    let mut progress = DownloadProgress::new("x".to_string());
    let (run, actions) = play(destination, events, &mut progress);
    assert_eq!(actions.last(), Some(&DownloadAction::Discard));
    assert_eq!(actions.iter().filter(|a| **a == DownloadAction::Discard).count(), 1);
    assert_eq!(run.stage, Stage::Ended);
    assert!(progress.done);
    progress.error.unwrap()
}

#[test]
fn download_run_fails_at_every_stage() {
    assert_eq!(
        failure_of(None, vec![DownloadEvent::Record(Err("404".to_string()))]),
        "404"
    );
    assert_eq!(
        failure_of(
            None,
            vec![DownloadEvent::Record(Ok(RemoteRecord { is_folder: true, ..record() }))]
        ),
        "Selected item is a directory"
    );
    let recorded = || vec![DownloadEvent::Record(Ok(record()))];
    let mut events = recorded();
    events.push(DownloadEvent::Destination { exists: false, is_dir: false, resolved: Ok(()) });
    assert_eq!(failure_of(Some("/nope"), events), "Destination path '/nope' does not exist");
    let mut events = recorded();
    events.push(DownloadEvent::Destination { exists: true, is_dir: false, resolved: Ok(()) });
    assert_eq!(failure_of(Some("/f"), events), "Destination path '/f' is not a directory");
    let mut events = recorded();
    events.push(DownloadEvent::Destination {
        exists: true,
        is_dir: true,
        resolved: Err("loop".to_string()),
    });
    assert_eq!(failure_of(Some("/d"), events), "Failed to canonicalize destination: loop");

    let mut events = up_to_the_body();
    events[2] = DownloadEvent::FinalPath { path: "/tmp/report.pdf".to_string(), exists: true };
    events.truncate(3);
    assert_eq!(
        failure_of(Some("/tmp"), events),
        "File '/tmp/report.pdf' already exists, delete it or use a different destination"
    );
    let mut events = up_to_the_body();
    events[3] = DownloadEvent::Stream(Err("refused".to_string()));
    assert_eq!(failure_of(Some("/tmp"), events), "refused");
    let mut events = up_to_the_body();
    events.push(DownloadEvent::Chunk { cancelled: false, arrived: Err("reset".to_string()) });
    assert_eq!(failure_of(Some("/tmp"), events), "reset");
    let mut events = up_to_the_body();
    events.extend(vec![chunk(1), DownloadEvent::Written(Err("disk full".to_string()))]);
    assert_eq!(failure_of(Some("/tmp"), events), "disk full");
    let mut events = up_to_the_body();
    events.extend(vec![
        DownloadEvent::End { checksum: "abc123".to_string() },
        DownloadEvent::Renamed(Err("busy".to_string())),
    ]);
    assert_eq!(failure_of(Some("/tmp"), events), "busy");
}

#[test]
fn download_run_refuses_what_it_did_not_wait_for() {
    assert_eq!(failure_of(None, vec![chunk(3)]), "Download step reported out of turn");
    let mut events = up_to_the_body();
    events.push(DownloadEvent::Written(Ok(())));
    assert_eq!(failure_of(None, events), "Download step reported out of turn");
    assert_eq!(DownloadError::OutOfTurn.message(), "Download step reported out of turn");
}

#[test]
fn progress_records_start_empty() {
    assert_eq!(
        UploadProgress::new(),
        UploadProgress {
            current_file: None,
            current_bytes: 0,
            total_bytes: None,
            done_files: 0,
            total_files: None,
            done: false,
            error: None,
        }
    );
    assert_eq!(
        DownloadProgress::new("n".to_string()),
        DownloadProgress {
            file_name: "n".to_string(),
            current_bytes: 0,
            total_bytes: None,
            done: false,
            error: None,
        }
    );
}

#[test]
fn upload_progress_of_a_single_file() {
    let mut p = UploadProgress::new();
    p.done_files = 4;
    p.current_bytes = 9;
    p.begin_single("a.bin".to_string(), 77);
    assert_eq!(p.current_file, Some("a.bin".to_string()));
    assert_eq!(p.total_bytes, Some(77));
    assert_eq!(p.current_bytes, 0);
    assert_eq!(p.done_files, 0);
    assert_eq!(p.total_files, Some(1));
    p.file_done();
    assert_eq!(p.done_files, 1);
    p.finish(None);
    assert!(p.done);
    assert_eq!(p.error, None);
    assert_eq!(p.duplicate(), p);
}

#[test]
fn upload_progress_count_stops_at_the_largest_number() {
    let mut p = UploadProgress::new();
    p.done_files = u64::MAX;
    p.file_done();
    assert_eq!(p.done_files, u64::MAX);
}

#[test]
fn finished_progress_has_an_error_only_after_a_failure() {
    let mut up = UploadProgress::new();
    up.finish(Some("boom".to_string()));
    assert!(up.done);
    assert_eq!(up.error, Some("boom".to_string()));
    let mut down = DownloadProgress::new("n".to_string());
    down.finish(None);
    assert!(down.done);
    assert_eq!(down.error, None);
    assert_eq!(down.duplicate(), down);
}

#[test]
fn progress_reader_starts_at_zero() {
    assert_eq!(ProgressReader::new(), ProgressReader { position: 0, published: 0 });
}

#[test]
fn progress_reader_refuses_once_cancelled() {
    let reader = ProgressReader::new();
    assert_eq!(reader.check(false), Ok(()));
    assert_eq!(reader.check(true), Err(StreamError::Cancelled));
}

#[test]
fn progress_reader_follows_reads() {
    let mut reader = ProgressReader::new();
    assert_eq!(reader.read(100), Some(100));
    assert_eq!(reader.read(0), None);
    assert_eq!(reader, ProgressReader { position: 100, published: 100 });
    assert_eq!(reader.read(24), Some(124));
    assert_eq!(reader.seek(200), 200);
    assert_eq!(reader, ProgressReader { position: 200, published: 200 });
}

#[test]
fn progress_reader_never_publishes_a_lower_count() {
    let mut reader = ProgressReader::new();
    assert_eq!(reader.read(10), Some(10));
    // a chunk is sent again: the stream goes back, the count does not
    assert_eq!(reader.seek(4), 10);
    assert_eq!(reader, ProgressReader { position: 4, published: 10 });
    assert_eq!(reader.read(2), Some(10));
    assert_eq!(reader, ProgressReader { position: 6, published: 10 });
    assert_eq!(reader.read(4), Some(10));
    assert_eq!(reader.read(5), Some(15));
    assert_eq!(reader, ProgressReader { position: 15, published: 15 });
    assert_eq!(reader.seek(0), 15);
    assert_eq!(reader.position, 0);
}

#[test]
fn progress_reader_position_stops_at_the_largest_number() {
    let mut reader = ProgressReader { position: u64::MAX - 1, published: 7 };
    assert_eq!(reader.read(2), Some(u64::MAX));
    assert_eq!(reader.read(2), Some(u64::MAX));
    assert_eq!(reader.position, u64::MAX);
}

#[test]
fn interactive_uploads_retry_persistently() {
    assert_eq!(
        retry_policy(),
        RetryPolicy {
            max_retries: 100000,
            min_sleep_secs: 1,
            max_sleep_secs: 60,
            print_chunk_errors: false,
            print_chunk_info: false,
        }
    );
}

#[test]
fn plan_needs_an_identifier_for_each_folder_and_file() {
    assert_eq!(ids_needed(&photos()), Ok(8));
    assert_eq!(ids_needed(&dir("empty", "/e", Vec::new())), Ok(1));
    assert_eq!(ids_needed(&leaf("f", "/f", 1)), Err(PlanError::NotADirectory));
    assert_eq!(ids_needed(&link("l", "/l")), Err(PlanError::NotADirectory));
}

#[test]
fn plan_lists_folders_in_pre_order() {
    let plan = plan_tree(&photos(), &id_list(8)).ok().unwrap();
    let folders = plan.folders();
    let names: Vec<&str> = folders.iter().map(|f| f.name.as_str()).collect();
    assert_eq!(names, vec!["photos", "2023", "raw", "2024"]);
    let parents: Vec<Option<usize>> = folders.iter().map(|f| f.parent).collect();
    assert_eq!(parents, vec![None, Some(0), Some(1), Some(0)]);
    let shown: Vec<&str> = folders.iter().map(|f| f.relative_path.as_str()).collect();
    assert_eq!(shown, vec!["photos", "photos/2023", "photos/2023/raw", "photos/2024"]);
    let paths: Vec<&str> = folders.iter().map(|f| f.path.as_str()).collect();
    assert_eq!(paths, vec!["/p", "/p/2023", "/p/2023/raw", "/p/2024"]);
    assert_eq!(plan.file_count(), 4);
}

#[test]
fn plan_puts_files_into_their_folders_and_leaves_links_out() {
    let plan = plan_tree(&photos(), &id_list(8)).ok().unwrap();
    let folders = plan.folders();
    let files: Vec<Vec<&str>> =
        folders.iter().map(|f| f.files.iter().map(|x| x.name.as_str()).collect()).collect();
    assert_eq!(files, vec![vec!["a.jpg", "z.jpg"], vec!["b.jpg"], vec!["c.raw"], vec![]]);
    let c = &folders[2].files[0];
    assert_eq!(c.path, "/p/2023/raw/c.raw");
    assert_eq!(c.size, 30);
    assert_eq!(c.relative_path, "photos/2023/raw/c.raw");
}

#[test]
fn plan_assigns_identifiers_in_the_order_of_realisation() {
    let plan = plan_tree(&photos(), &id_list(10)).ok().unwrap();
    let folders = plan.folders();
    let folder_ids: Vec<&str> = folders.iter().map(|f| f.drive_id.as_str()).collect();
    assert_eq!(folder_ids, vec!["id0", "id3", "id5", "id7"]);
    let file_ids: Vec<Vec<&str>> =
        folders.iter().map(|f| f.files.iter().map(|x| x.drive_id.as_str()).collect()).collect();
    assert_eq!(file_ids, vec![vec!["id1", "id2"], vec!["id4"], vec!["id6"], vec![]]);
}

#[test]
fn plan_every_parent_stands_before_its_folder() {
    let plan = plan_tree(&photos(), &id_list(8)).ok().unwrap();
    for (index, folder) in plan.folders().iter().enumerate() {
        match folder.parent {
            Some(p) => assert!(p < index),
            None => assert_eq!(index, 0),
        }
    }
}

#[test]
fn plan_is_refused_without_enough_identifiers() {
    assert!(matches!(plan_tree(&photos(), &id_list(7)), Err(PlanError::NotEnoughIds { needed: 8 })));
    assert!(matches!(plan_tree(&leaf("f", "/f", 1), &id_list(7)), Err(PlanError::NotADirectory)));
}

fn run_to_the_end(run: &mut UploadRun, progress: &mut UploadProgress) -> Vec<String> {
    let mut log = Vec::new();
    loop {
        match run.next_step(false, progress).unwrap() {
            UploadStep::CreateFolder { folder, id, name, parent } => {
                log.push(format!("mkdir {} {} {} in {:?}", folder, id, name, parent));
                run.folder_created(Some(format!("remote-{}", id)), progress).unwrap();
            }
            UploadStep::UploadFile { folder, file, id, path, size, relative_path, into } => {
                assert_eq!(progress.current_file, Some(relative_path));
                assert_eq!(progress.total_bytes, Some(size));
                assert_eq!(progress.current_bytes, 0);
                log.push(format!("put {}.{} {} {} into {}", folder, file, id, path, into));
                progress.current_bytes = size;
                run.file_uploaded(progress).unwrap();
            }
            UploadStep::Finished => return log,
            UploadStep::Stopped => panic!("the run was stopped"),
        }
    }
}

fn photo_run(progress: &mut UploadProgress) -> UploadRun {
    let plan = plan_tree(&photos(), &id_list(8)).ok().unwrap();
    UploadRun::new(plan, None, progress)
}

#[test]
fn upload_run_creates_every_folder_before_its_contents() {
    let plan = plan_tree(&photos(), &id_list(8)).ok().unwrap();
    let mut progress = UploadProgress::new();
    progress.done_files = 3;
    let mut run = UploadRun::new(plan, Some("target".to_string()), &mut progress);
    assert_eq!(progress.total_files, Some(4));
    assert_eq!(progress.done_files, 0);
    assert!(!run.is_finished());
    assert!(!run.is_ended());
    let log = run_to_the_end(&mut run, &mut progress);
    assert_eq!(
        log,
        vec![
            "mkdir 0 id0 photos in Some(\"target\")",
            "put 0.0 id1 /p/a.jpg into remote-id0",
            "put 0.1 id2 /p/z.jpg into remote-id0",
            "mkdir 1 id3 2023 in Some(\"id0\")",
            "put 1.0 id4 /p/2023/b.jpg into remote-id3",
            "mkdir 2 id5 raw in Some(\"id3\")",
            "put 2.0 id6 /p/2023/raw/c.raw into remote-id5",
            "mkdir 3 id7 2024 in Some(\"id0\")",
        ]
    );
    assert!(run.is_finished());
    assert!(run.is_ended());
    assert_eq!(progress.done_files, 4);
    assert!(progress.done);
    assert_eq!(progress.error, None);
    // a cancellation after the last step changes nothing
    assert_eq!(run.next_step(true, &mut progress), Ok(UploadStep::Finished));
    assert_eq!(progress.error, None);
}

#[test]
fn upload_run_into_the_root_has_no_parent() {
    let plan = plan_tree(&dir("d", "/d", Vec::new()), &id_list(1)).ok().unwrap();
    let mut progress = UploadProgress::new();
    let mut run = UploadRun::new(plan, None, &mut progress);
    assert_eq!(progress.total_files, Some(0));
    assert_eq!(
        run.next_step(false, &mut progress),
        Ok(UploadStep::CreateFolder {
            folder: 0,
            id: "id0".to_string(),
            name: "d".to_string(),
            parent: None,
        })
    );
    assert!(!progress.done);
}

#[test]
fn upload_run_ends_when_cancelled() {
    let mut progress = UploadProgress::new();
    let mut run = photo_run(&mut progress);
    run.next_step(false, &mut progress).unwrap();
    run.folder_created(Some("r0".to_string()), &mut progress).unwrap();
    run.next_step(false, &mut progress).unwrap();
    run.file_uploaded(&mut progress).unwrap();

    assert_eq!(run.next_step(true, &mut progress), Err(UploadError::Cancelled));
    assert_eq!(UploadError::Cancelled.message(), "Cancelled");
    assert!(run.is_ended());
    assert!(!run.is_finished());
    assert!(progress.done);
    assert_eq!(progress.error, Some("Cancelled".to_string()));
    assert_eq!(progress.done_files, 1);
    // no step is named any more, and nothing was undone
    let after = progress.clone();
    assert_eq!(run.next_step(false, &mut progress), Ok(UploadStep::Stopped));
    assert_eq!(run.next_step(true, &mut progress), Ok(UploadStep::Stopped));
    assert_eq!(progress, after);
}

#[test]
fn upload_does_not_begin_once_cancelled() {
    assert_eq!(check_cancelled(false), Ok(()));
    assert_eq!(check_cancelled(true), Err(UploadError::Cancelled));
    let mut progress = UploadProgress::new();
    let mut run = photo_run(&mut progress);
    assert_eq!(run.next_step(true, &mut progress), Err(UploadError::Cancelled));
    assert_eq!(run.next_step(false, &mut progress), Ok(UploadStep::Stopped));
    assert_eq!(progress.done_files, 0);
}

#[test]
fn failed_folder_aborts_the_rest_of_the_plan() {
    let mut progress = UploadProgress::new();
    let mut run = photo_run(&mut progress);
    // the root and its two files succeed
    for _ in 0..3 {
        match run.next_step(false, &mut progress).unwrap() {
            UploadStep::CreateFolder { id, .. } => {
                run.folder_created(Some(id), &mut progress).unwrap()
            }
            UploadStep::UploadFile { .. } => run.file_uploaded(&mut progress).unwrap(),
            other => panic!("unexpected step {:?}", other),
        }
    }
    assert!(matches!(
        run.next_step(false, &mut progress),
        Ok(UploadStep::CreateFolder { folder: 1, .. })
    ));
    run.fail("403 forbidden".to_string(), &mut progress);

    assert!(run.is_ended());
    assert!(!run.is_finished());
    assert!(progress.done);
    assert_eq!(progress.error, Some("403 forbidden".to_string()));
    assert_eq!(progress.done_files, 2);
    assert_eq!(progress.total_files, Some(4));
    let after = progress.clone();
    assert_eq!(run.next_step(false, &mut progress), Ok(UploadStep::Stopped));
    assert_eq!(run.folder_created(Some("late".to_string()), &mut progress), Err(UploadError::OutOfTurn));
    assert_eq!(run.file_uploaded(&mut progress), Err(UploadError::OutOfTurn));
    run.fail("another".to_string(), &mut progress);
    assert_eq!(progress, after);
}

#[test]
fn failed_file_aborts_the_rest_of_the_plan() {
    let mut progress = UploadProgress::new();
    let mut run = photo_run(&mut progress);
    run.next_step(false, &mut progress).unwrap();
    run.folder_created(Some("r0".to_string()), &mut progress).unwrap();
    run.next_step(false, &mut progress).unwrap();
    run.file_uploaded(&mut progress).unwrap();
    assert!(matches!(
        run.next_step(false, &mut progress),
        Ok(UploadStep::UploadFile { folder: 0, file: 1, .. })
    ));
    run.fail("disk read error".to_string(), &mut progress);
    assert!(progress.done);
    assert_eq!(progress.error, Some("disk read error".to_string()));
    assert_eq!(progress.done_files, 1);
    assert_eq!(progress.current_file, Some("photos/z.jpg".to_string()));
    assert_eq!(run.next_step(false, &mut progress), Ok(UploadStep::Stopped));
}

#[test]
fn failure_after_the_last_step_changes_nothing() {
    let mut progress = UploadProgress::new();
    let mut run = photo_run(&mut progress);
    run_to_the_end(&mut run, &mut progress);
    let after = progress.clone();
    run.fail("late".to_string(), &mut progress);
    assert!(run.is_finished());
    assert_eq!(progress, after);
    assert_eq!(run.folder_created(Some("late".to_string()), &mut progress), Err(UploadError::OutOfTurn));
    assert_eq!(progress, after);
}

#[test]
fn upload_run_fails_on_a_folder_without_identifier() {
    let mut progress = UploadProgress::new();
    let mut run = photo_run(&mut progress);
    run.next_step(false, &mut progress).unwrap();
    assert_eq!(run.folder_created(None, &mut progress), Err(UploadError::FolderWithoutId));
    assert_eq!(UploadError::FolderWithoutId.message(), "Folder created on drive has no id");
    assert!(run.is_ended());
    assert!(progress.done);
    assert_eq!(progress.error, Some("Folder created on drive has no id".to_string()));
    assert_eq!(run.next_step(false, &mut progress), Ok(UploadStep::Stopped));
}

#[test]
fn upload_run_ends_on_a_report_out_of_turn() {
    let mut progress = UploadProgress::new();
    let mut run = photo_run(&mut progress);
    assert_eq!(run.file_uploaded(&mut progress), Err(UploadError::OutOfTurn));
    assert_eq!(UploadError::OutOfTurn.message(), "Upload step reported out of turn");
    assert_eq!(progress.done_files, 0);
    assert!(progress.done);
    assert_eq!(progress.error, Some("Upload step reported out of turn".to_string()));
    assert_eq!(run.next_step(false, &mut progress), Ok(UploadStep::Stopped));

    let mut progress = UploadProgress::new();
    let mut run = photo_run(&mut progress);
    run.folder_created(Some("r0".to_string()), &mut progress).unwrap();
    assert_eq!(run.folder_created(Some("r1".to_string()), &mut progress), Err(UploadError::OutOfTurn));
    assert!(run.is_ended());
}
