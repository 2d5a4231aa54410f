use ytmp3::command::{CommandOutput, Invocation, SpawnError};
use ytmp3::download::{
    accepts_url, extraction_command, output_path, title_query, Download, DownloadAction,
    DownloadEvent, Stage,
};
use ytmp3::outcome::{DownloadError, Outcome, ProcessFailure};
use ytmp3::provision::{
    extractor, transcoder, Fault, InstallLocation, ProvisionAction, ProvisionError,
    ProvisionEvent, Provisioner,
};

const URL: &str = "https://youtu.be/abc123";

fn words(items: &[&str]) -> Vec<String> {
    items.iter().map(|s| s.to_string()).collect()
}

fn ran(stdout: &str, stderr: &str, code: i32) -> DownloadEvent {
    DownloadEvent::Ran(Ok(CommandOutput {
        stdout: stdout.as_bytes().to_vec(),
        stderr: stderr.as_bytes().to_vec(),
        exit_code: Some(code),
    }))
}

fn not_started(detail: &str) -> DownloadEvent {
    DownloadEvent::Ran(Err(SpawnError { detail: detail.to_string() }))
}

fn provisioned(path: &str) -> DownloadEvent {
    DownloadEvent::Provisioned(Ok(path.to_string()))
}

fn unprovisioned(fault: Fault, detail: &str) -> DownloadEvent {
    DownloadEvent::Provisioned(Err(ProvisionError { fault, detail: detail.to_string() }))
}

fn sample_events() -> Vec<DownloadEvent> {
    vec![
        provisioned("/opt/app/yt-dlp"),
        unprovisioned(Fault::Fetch, "x"),
        ran("title\n", "", 0),
        ran("", "boom", 1),
        not_started("gone"),
        DownloadEvent::DefaultDirectory(None),
        DownloadEvent::DefaultDirectory(Some("/d".to_string())),
        DownloadEvent::SaveLocation(None),
        DownloadEvent::SaveLocation(Some("/s".to_string())),
    ]
}

fn is_outside_action(action: &DownloadAction) -> bool {
    !matches!(action, DownloadAction::Finish(_) | DownloadAction::Unexpected)
}

/// Feeds `events` to a download of the sample URL and gives the download
/// and the last action.
fn drive(events: Vec<DownloadEvent>) -> (Download, DownloadAction) {
    let (mut download, mut action) = Download::begin(URL.to_string());
    for event in events {
        let next = download.step(event);
        download = next.0;
        action = next.1;
    }
    (download, action)
}

fn up_to_title(transcoder_found: DownloadEvent) -> Vec<DownloadEvent> {
    vec![provisioned("/opt/app/yt-dlp"), transcoder_found, ran("My Song: Live!\n", "", 0)]
}

fn up_to_dialog(transcoder_found: DownloadEvent) -> Vec<DownloadEvent> {
    let mut events = up_to_title(transcoder_found);
    events.push(DownloadEvent::DefaultDirectory(Some("/home/u/Downloads".to_string())));
    events
}

fn up_to_extraction(transcoder_found: DownloadEvent) -> Vec<DownloadEvent> {
    let mut events = up_to_dialog(transcoder_found);
    events.push(DownloadEvent::SaveLocation(Some("/home/u/Music".to_string())));
    events
}

#[test]
fn accepted_hosts() {
    assert!(accepts_url("https://www.youtube.com/watch?v=abc"));
    assert!(accepts_url("https://youtu.be/abc123"));
    assert!(accepts_url("youtube.com"));
    assert!(accepts_url("http://m.youtube.com/x"));
    assert!(accepts_url("https://example.org/?next=youtu.be"));
}

#[test]
fn refused_hosts() {
    assert!(!accepts_url(""));
    assert!(!accepts_url("https://example.org/video"));
    assert!(!accepts_url("https://youtube.co/watch"));
    assert!(!accepts_url("https://youtu.b/abc"));
    assert!(!accepts_url("https://YouTube.com/watch"));
    assert!(!accepts_url("https://vimeo.com/1"));
}

#[test]
fn title_query_prints_the_title() {
    assert_eq!(
        title_query("/opt/app/yt-dlp", URL),
        Invocation { program: "/opt/app/yt-dlp".to_string(), args: words(&["--print", "title", URL]) }
    );
}

#[test]
fn output_path_joins_directory_sanitised_title_and_extension() {
    assert_eq!(output_path("/home/u/Music", "My Song: Live!"), "/home/u/Music/My Song Live.mp3");
    assert_eq!(output_path("/d", ""), "/d/.mp3");
    assert_eq!(output_path("", "a/b"), "/ab.mp3");
}

#[test]
fn extraction_command_names_the_transcoder_where_there_is_one() {
    let inv = extraction_command(
        "/opt/app/yt-dlp",
        &Some("/opt/app/ffmpeg".to_string()),
        "/home/u/Music",
        "My Song: Live!",
        URL,
    );
    assert_eq!(inv.program, "/opt/app/yt-dlp");
    assert_eq!(inv.args, words(&[
        "-x",
        "--audio-format",
        "mp3",
        "--ffmpeg-location",
        "/opt/app/ffmpeg",
        "-o",
        "/home/u/Music/My Song Live.mp3",
        URL,
    ]));
}

#[test]
fn extraction_command_omits_the_transcoder_where_there_is_none() {
    let inv = extraction_command("/opt/app/yt-dlp", &None, "/home/u/Music", "My Song: Live!", URL);
    assert_eq!(inv.program, "/opt/app/yt-dlp");
    assert_eq!(inv.args, words(&[
        "-x",
        "--audio-format",
        "mp3",
        "-o",
        "/home/u/Music/My Song Live.mp3",
        URL,
    ]));
    assert!(!inv.args.iter().any(|a| a == "--ffmpeg-location"));
}

#[test]
fn accepted_url_has_the_extractor_provisioned_first() {
    let (download, action) = Download::begin(URL.to_string());
    assert_eq!(action, DownloadAction::Provision(extractor()));
    assert_eq!(download.stage, Stage::ProvisioningExtractor);
    assert_eq!(download.url, URL);
}

#[test]
fn refused_url_ends_at_once_and_touches_nothing() {
    for url in ["https://example.org/video", "", "ftp://youtube"] {
        let (mut download, action) = Download::begin(url.to_string());
        assert_eq!(action, DownloadAction::Finish(Outcome::Failed(DownloadError::InvalidInput)));
        assert_eq!(download.stage, Stage::Done(Outcome::Failed(DownloadError::InvalidInput)));
        let mut outside = 0;
        for event in sample_events() {
            let next = download.step(event);
            download = next.0;
            if is_outside_action(&next.1) {
                outside += 1;
            }
            assert_eq!(
                next.1,
                DownloadAction::Finish(Outcome::Failed(DownloadError::InvalidInput))
            );
        }
        assert_eq!(outside, 0);
    }
}

#[test]
fn extractor_that_cannot_be_provisioned_ends_the_download() {
    let (download, _) = Download::begin(URL.to_string());
    let (mut download, action) =
        download.step(unprovisioned(Fault::Fetch, "Failed to download yt-dlp"));
    let expected = || {
        Outcome::Failed(DownloadError::Provision(ProvisionError {
            fault: Fault::Fetch,
            detail: "Failed to download yt-dlp".to_string(),
        }))
    };
    assert_eq!(action, DownloadAction::Finish(expected()));
    assert_eq!(expected().message(), "Error ensuring yt-dlp: Failed to download yt-dlp");
    for event in sample_events() {
        let next = download.step(event);
        download = next.0;
        assert!(!is_outside_action(&next.1));
        assert_eq!(next.1, DownloadAction::Finish(expected()));
    }
}

#[test]
fn after_the_extractor_the_transcoder_is_provisioned() {
    let (download, action) = drive(vec![provisioned("/opt/app/yt-dlp")]);
    assert_eq!(action, DownloadAction::Provision(transcoder()));
    assert_eq!(download.stage, Stage::ProvisioningTranscoder);
    assert_eq!(download.extractor, "/opt/app/yt-dlp");
}

#[test]
fn missing_transcoder_does_not_stop_the_download() {
    let missing = || unprovisioned(Fault::Extraction, "ffmpeg not found in zip");
    let (download, action) = drive(vec![provisioned("/opt/app/yt-dlp"), missing()]);
    assert_eq!(action, DownloadAction::Run(Invocation {
        program: "/opt/app/yt-dlp".to_string(),
        args: words(&["--print", "title", URL]),
    }));
    assert_eq!(download.transcoder, None);
    assert_eq!(download.stage, Stage::FetchingTitle);

    let (_, action) = drive(up_to_extraction(missing()));
    assert_eq!(action, DownloadAction::Run(Invocation {
        program: "/opt/app/yt-dlp".to_string(),
        args: words(&[
            "-x",
            "--audio-format",
            "mp3",
            "-o",
            "/home/u/Music/My Song Live.mp3",
            URL,
        ]),
    }));

    let mut events = up_to_extraction(missing());
    events.push(ran("", "", 0));
    let (_, action) = drive(events);
    assert_eq!(action, DownloadAction::Finish(Outcome::Saved("/home/u/Music".to_string())));
}

#[test]
fn title_is_the_trimmed_output_of_the_query() {
    let (download, action) = drive(vec![
        provisioned("/opt/app/yt-dlp"),
        provisioned("/opt/app/ffmpeg"),
        ran("  My Song: Live!  \n", "WARNING: something\n", 0),
    ]);
    assert_eq!(action, DownloadAction::AskDefaultDirectory);
    assert_eq!(download.title, "My Song: Live!");
    assert_eq!(download.stage, Stage::LocatingDownloads);
}

#[test]
fn title_query_that_cannot_start_is_a_metadata_error() {
    let (_, action) = drive(vec![
        provisioned("/opt/app/yt-dlp"),
        provisioned("/opt/app/ffmpeg"),
        not_started("Permission denied (os error 13)"),
    ]);
    let expected = Outcome::Failed(DownloadError::Metadata(ProcessFailure::NotStarted(
        "Permission denied (os error 13)".to_string(),
    )));
    assert_eq!(
        expected.message(),
        "Error: Failed to execute yt-dlp: Permission denied (os error 13)"
    );
    assert_eq!(action, DownloadAction::Finish(expected));
}

#[test]
fn title_query_that_fails_is_a_metadata_error_with_its_stderr() {
    let (_, action) = drive(vec![
        provisioned("/opt/app/yt-dlp"),
        provisioned("/opt/app/ffmpeg"),
        ran("partial", "ERROR: Video unavailable\n", 1),
    ]);
    let expected = Outcome::Failed(DownloadError::Metadata(ProcessFailure::Failed(
        "ERROR: Video unavailable\n".to_string(),
    )));
    assert_eq!(
        expected.message(),
        "Error: yt-dlp failed to get title: ERROR: Video unavailable\n"
    );
    assert_eq!(action, DownloadAction::Finish(expected));
}

#[test]
fn dialog_opens_in_the_hosts_directory_with_the_sanitised_title() {
    let (download, action) = drive(up_to_dialog(provisioned("/opt/app/ffmpeg")));
    assert_eq!(action, DownloadAction::AskSaveLocation {
        directory: "/home/u/Downloads".to_string(),
        file_name: "My Song Live".to_string(),
    });
    assert_eq!(download.stage, Stage::ChoosingLocation);
    assert_eq!(download.title, "My Song: Live!");
}

#[test]
fn dialog_falls_back_to_the_conventional_directory() {
    let mut events = up_to_title(provisioned("/opt/app/ffmpeg"));
    events.push(DownloadEvent::DefaultDirectory(None));
    let (_, action) = drive(events);
    assert_eq!(action, DownloadAction::AskSaveLocation {
        directory: "~/Downloads".to_string(),
        file_name: "My Song Live".to_string(),
    });
}

#[test]
fn dialog_and_output_file_bear_the_same_name() {
    let title = "a/b: c? \u{e9}\u{1f3b5} d_e-f";
    let events = vec![
        provisioned("/opt/app/yt-dlp"),
        provisioned("/opt/app/ffmpeg"),
        ran(title, "", 0),
        DownloadEvent::DefaultDirectory(None),
    ];
    let (download, action) = drive(events);
    let shown = match action {
        DownloadAction::AskSaveLocation { file_name, .. } => file_name,
        other => panic!("expected the dialog, got {:?}", other),
    };
    assert_eq!(shown, "ab c  d_e-f");
    let (_, action) = download.step(DownloadEvent::SaveLocation(Some("/m".to_string())));
    match action {
        DownloadAction::Run(inv) => {
            assert_eq!(inv.args[inv.args.len() - 2], format!("/m/{}.mp3", shown));
        },
        other => panic!("expected the extraction, got {:?}", other),
    }
}

#[test]
fn dismissed_dialog_cancels_and_nothing_is_spawned() {
    let mut events = up_to_dialog(provisioned("/opt/app/ffmpeg"));
    events.push(DownloadEvent::SaveLocation(None));
    let (mut download, action) = drive(events);
    assert_eq!(action, DownloadAction::Finish(Outcome::Canceled));
    assert_eq!(download.stage, Stage::Done(Outcome::Canceled));
    assert_eq!(Outcome::Canceled.message(), "canceled");
    for event in sample_events() {
        let next = download.step(event);
        download = next.0;
        assert!(!matches!(next.1, DownloadAction::Run(_)));
        assert_eq!(next.1, DownloadAction::Finish(Outcome::Canceled));
    }
}

#[test]
fn end_to_end_with_both_tools() {
    let (download, action) = Download::begin("https://youtu.be/abc123".to_string());
    assert_eq!(action, DownloadAction::Provision(extractor()));
    let (download, action) = download.step(provisioned("/opt/app/yt-dlp"));
    assert_eq!(action, DownloadAction::Provision(transcoder()));
    let (download, action) = download.step(provisioned("/opt/app/ffmpeg"));
    assert_eq!(action, DownloadAction::Run(Invocation {
        program: "/opt/app/yt-dlp".to_string(),
        args: words(&["--print", "title", "https://youtu.be/abc123"]),
    }));
    let (download, action) = download.step(ran("My Song: Live!\n", "", 0));
    assert_eq!(action, DownloadAction::AskDefaultDirectory);
    let (download, action) =
        download.step(DownloadEvent::DefaultDirectory(Some("/home/u/Downloads".to_string())));
    assert_eq!(action, DownloadAction::AskSaveLocation {
        directory: "/home/u/Downloads".to_string(),
        file_name: "My Song Live".to_string(),
    });
    let (download, action) =
        download.step(DownloadEvent::SaveLocation(Some("/home/u/Music".to_string())));
    assert_eq!(action, DownloadAction::Run(Invocation {
        program: "/opt/app/yt-dlp".to_string(),
        args: words(&[
            "-x",
            "--audio-format",
            "mp3",
            "--ffmpeg-location",
            "/opt/app/ffmpeg",
            "-o",
            "/home/u/Music/My Song Live.mp3",
            "https://youtu.be/abc123",
        ]),
    }));
    assert_eq!(download.directory, "/home/u/Music");
    let (download, action) = download.step(ran("[download] 100%\n", "", 0));
    match action {
        DownloadAction::Finish(outcome) => {
            assert_eq!(outcome, Outcome::Saved("/home/u/Music".to_string()));
            assert_eq!(outcome.message(), "Ok: path=/home/u/Music");
        },
        other => panic!("expected the end, got {:?}", other),
    }
    assert_eq!(download.stage, Stage::Done(Outcome::Saved("/home/u/Music".to_string())));
}

#[test]
fn extraction_that_fails_is_an_execution_error_with_its_stderr() {
    let mut events = up_to_extraction(provisioned("/opt/app/ffmpeg"));
    events.push(ran("", "ERROR: unable to download\n", 1));
    let (_, action) = drive(events);
    let expected = Outcome::Failed(DownloadError::Execution(ProcessFailure::Failed(
        "ERROR: unable to download\n".to_string(),
    )));
    assert_eq!(expected.message(), "Error: yt-dlp failed: ERROR: unable to download\n");
    assert_eq!(action, DownloadAction::Finish(expected));
}

#[test]
fn extraction_that_cannot_start_is_an_execution_error() {
    let mut events = up_to_extraction(provisioned("/opt/app/ffmpeg"));
    events.push(not_started("No such file or directory (os error 2)"));
    let (_, action) = drive(events);
    let expected = Outcome::Failed(DownloadError::Execution(ProcessFailure::NotStarted(
        "No such file or directory (os error 2)".to_string(),
    )));
    assert_eq!(
        expected.message(),
        "Error: Failed to run yt-dlp: No such file or directory (os error 2)"
    );
    assert_eq!(action, DownloadAction::Finish(expected));
}

#[test]
fn extraction_ended_by_a_signal_is_a_failure() {
    let mut events = up_to_extraction(provisioned("/opt/app/ffmpeg"));
    events.push(DownloadEvent::Ran(Ok(CommandOutput {
        stdout: vec![],
        stderr: b"killed".to_vec(),
        exit_code: None,
    })));
    let (_, action) = drive(events);
    assert_eq!(
        action,
        DownloadAction::Finish(Outcome::Failed(DownloadError::Execution(
            ProcessFailure::Failed("killed".to_string())
        )))
    );
}

#[test]
fn messages_of_all_outcomes() {
    assert_eq!(Outcome::Saved("/home/u/Music".to_string()).message(), "Ok: path=/home/u/Music");
    assert_eq!(Outcome::Canceled.message(), "canceled");
    assert_eq!(Outcome::Failed(DownloadError::InvalidInput).message(), "invalid URL");
    let provision = ProvisionError {
        fault: Fault::Permission,
        detail: "chmod failed for yt-dlp".to_string(),
    };
    assert_eq!(
        Outcome::Failed(DownloadError::Provision(provision)).message(),
        "Error ensuring yt-dlp: chmod failed for yt-dlp"
    );
    let spawn = || ProcessFailure::NotStarted("e".to_string());
    let exit = || ProcessFailure::Failed("s".to_string());
    assert_eq!(
        Outcome::Failed(DownloadError::Metadata(spawn())).message(),
        "Error: Failed to execute yt-dlp: e"
    );
    assert_eq!(
        Outcome::Failed(DownloadError::Metadata(exit())).message(),
        "Error: yt-dlp failed to get title: s"
    );
    assert_eq!(
        Outcome::Failed(DownloadError::Execution(spawn())).message(),
        "Error: Failed to run yt-dlp: e"
    );
    assert_eq!(
        Outcome::Failed(DownloadError::Execution(exit())).message(),
        "Error: yt-dlp failed: s"
    );
}

#[test]
fn duplicate_of_an_outcome_is_equal() {
    let outcomes = [
        Outcome::Saved("/d".to_string()),
        Outcome::Canceled,
        Outcome::Failed(DownloadError::InvalidInput),
        Outcome::Failed(DownloadError::Metadata(ProcessFailure::Failed("s".to_string()))),
        Outcome::Failed(DownloadError::Execution(ProcessFailure::NotStarted("e".to_string()))),
        Outcome::Failed(DownloadError::Provision(ProvisionError {
            fault: Fault::Location,
            detail: "d".to_string(),
        })),
    ];
    for outcome in outcomes.iter() {
        assert_eq!(&outcome.duplicate(), outcome);
    }
}

#[test]
fn download_ignores_an_event_that_answers_nothing() {
    let (download, action) = drive(vec![ran("title", "", 0)]);
    assert_eq!(action, DownloadAction::Unexpected);
    assert_eq!(download, Download::begin(URL.to_string()).0);

    let mut events = up_to_title(provisioned("/opt/app/ffmpeg"));
    events.push(DownloadEvent::SaveLocation(Some("/s".to_string())));
    let (download, action) = drive(events);
    assert_eq!(action, DownloadAction::Unexpected);
    assert_eq!(download, drive(up_to_title(provisioned("/opt/app/ffmpeg"))).0);

    let mut events = up_to_extraction(provisioned("/opt/app/ffmpeg"));
    events.push(provisioned("/x"));
    let (download, action) = drive(events);
    assert_eq!(action, DownloadAction::Unexpected);
    assert_eq!(download.stage, Stage::Extracting);
}

#[test]
fn with_title_keeps_the_title_and_asks_for_the_directory() {
    let (download, _) = drive(vec![provisioned("/opt/app/yt-dlp"), provisioned("/opt/app/ffmpeg")]);
    let (download, action) = download.with_title("My Song: Live!".to_string());
    assert_eq!(action, DownloadAction::AskDefaultDirectory);
    assert_eq!(download.title, "My Song: Live!");
    assert_eq!(download.stage, Stage::LocatingDownloads);
    assert_eq!(download.extractor, "/opt/app/yt-dlp");
    assert_eq!(download.transcoder, Some("/opt/app/ffmpeg".to_string()));
}

#[test]
fn transcoder_that_cannot_be_marked_is_left_out_of_the_extraction() {
    let (p, _) = Provisioner::begin(transcoder(), InstallLocation::Directory("/opt/app".to_string()));
    let (p, _) = p.step(ProvisionEvent::Presence(false));
    let (p, _) = p.after_extraction(Ok(b"transcoder".to_vec()));
    let (p, _) = p.step(ProvisionEvent::Written(Ok(())));
    let (_, action) = p.step(ProvisionEvent::Ran(Ok(CommandOutput {
        stdout: vec![],
        stderr: vec![],
        exit_code: Some(1),
    })));
    let provisioning = match action {
        ProvisionAction::Finish(result) => result,
        other => panic!("expected the end of the provisioning, got {:?}", other),
    };
    assert!(provisioning.is_err());

    let (download, _) = drive(vec![provisioned("/opt/app/yt-dlp")]);
    let (download, _) = download.step(DownloadEvent::Provisioned(provisioning));
    assert_eq!(download.transcoder, None);
    let (download, _) = download.step(ran("My Song: Live!\n", "", 0));
    let (download, _) = download.step(DownloadEvent::DefaultDirectory(None));
    let (_, action) = download.step(DownloadEvent::SaveLocation(Some("/home/u/Music".to_string())));
    assert_eq!(action, DownloadAction::Run(Invocation {
        program: "/opt/app/yt-dlp".to_string(),
        args: words(&[
            "-x",
            "--audio-format",
            "mp3",
            "-o",
            "/home/u/Music/My Song Live.mp3",
            URL,
        ]),
    }));
}
