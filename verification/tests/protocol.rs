use summary_server::controller::after_fetch;
use summary_server::controller::after_model;
use summary_server::controller::after_zip;
use summary_server::controller::archive_file_path;
use summary_server::controller::archive_step;
use summary_server::controller::audio_file_path;
use summary_server::controller::classify_fetch_failure;
use summary_server::controller::command_line;
use summary_server::controller::fetch_args;
use summary_server::controller::is_url_problem;
use summary_server::controller::join_path;
use summary_server::controller::model_args;
use summary_server::controller::poll_finish;
use summary_server::controller::poll_step;
use summary_server::controller::submit;
use summary_server::controller::summary_file_path;
use summary_server::controller::task_err;
use summary_server::controller::zip_args;
use summary_server::controller::ArchiveStep;
use summary_server::controller::CmdOutcome;
use summary_server::controller::PollStep;
use summary_server::exception::AppError;
use summary_server::exception::ClientError;
use summary_server::exception::ServerError;
use summary_server::models::FetchArchiveReq;
use summary_server::models::InitiateReq;
use summary_server::models::PollStatusReq;
use summary_server::models::ServerState;
use summary_server::models::TaskStatus;

#[test]
fn submit_is_idempotent_for_known_tokens() {
    let req = InitiateReq {
        url: "https://y/v".into(),
        uuid: "known".into(),
    };
    let mut state = ServerState::new("/work".into());
    state.update_task(&req.uuid, TaskStatus::Download);
    let (token, spawn) = submit(&state, req.uuid);
    assert_eq!(token, "known");
    assert!(!spawn);
}

#[test]
fn submit_mints_a_fresh_token_otherwise() {
    let state = ServerState::new("/work".into());
    let (token, spawn) = submit(&state, "".into());
    assert!(spawn);
    assert_eq!(token.chars().count(), 36);
    let (token2, spawn2) = submit(&state, "".into());
    assert!(spawn2);
    assert_ne!(token, token2);
}

#[test]
fn poll_of_unknown_token_is_a_client_fault() {
    let req = PollStatusReq {
        uuid: "nonexistent".into(),
    };
    let mut state = ServerState::new("/work".into());
    match poll_step(&mut state, &req.uuid) {
        PollStep::NotFound(e) => {
            assert_eq!(e.source(), "client");
            assert!(matches!(e, AppError::Client(ClientError::TokenNotExist(_))));
        }
        _ => panic!("expected NotFound"),
    }
}

#[test]
fn happy_path_delivers_the_result_exactly_once() {
    let mut state = ServerState::new("/work".into());
    let token = "bb58281b-e2d3-49b4-a43a-6a1bb24a595d";

    state.update_task(token, TaskStatus::Download);
    match poll_step(&mut state, token) {
        PollStep::InProgress(resp) => {
            assert!(!resp.done);
            assert_eq!(resp.stage.label(), "Download");
            assert!(resp.result.is_none());
        }
        _ => panic!("expected InProgress"),
    }

    state.update_task(token, TaskStatus::Pending);
    match poll_step(&mut state, token) {
        PollStep::InProgress(resp) => {
            assert_eq!(resp.stage.label(), "Pending");
        }
        _ => panic!("expected InProgress"),
    }

    state.update_task(token, TaskStatus::Done);
    match poll_step(&mut state, token) {
        PollStep::NeedRead => {}
        _ => panic!("expected NeedRead"),
    }
    assert!(!state.has_task(token));

    let resp = poll_finish(Some("the summary".into()), "/p".into()).unwrap();
    assert!(resp.done);
    assert_eq!(resp.stage.label(), "Done");
    assert_eq!(resp.result.as_deref(), Some("the summary"));

    match poll_step(&mut state, token) {
        PollStep::NotFound(_) => {}
        _ => panic!("expected NotFound on the second poll"),
    }
}

#[test]
fn failed_task_is_delivered_exactly_once() {
    let mut state = ServerState::new("/work".into());
    state.update_task(
        "t",
        task_err(AppError::Server(ServerError::VideoDownload("403".into()))),
    );
    match poll_step(&mut state, "t") {
        PollStep::Failed(e) => {
            assert_eq!(e.info(), "video download failed, cause: 403.");
        }
        _ => panic!("expected Failed"),
    }
    match poll_step(&mut state, "t") {
        PollStep::NotFound(_) => {}
        _ => panic!("expected NotFound on the second poll"),
    }
}

#[test]
fn unreadable_result_is_a_server_fault() {
    let r = poll_finish(None, "/w/t/summary.txt".into());
    match r {
        Err(AppError::Server(ServerError::ReadFile(path))) => {
            assert_eq!(path, "/w/t/summary.txt");
        }
        _ => panic!("expected ReadFile"),
    }
}

#[test]
fn video_unavailable_is_the_callers_fault() {
    let stderr = "ERROR: [youtube] abc: Video unavailable";
    assert!(is_url_problem(stderr));
    let e = classify_fetch_failure("https://y/v".into(), stderr.into());
    match e {
        AppError::Client(ClientError::VideoLinkNotExist(url)) => {
            assert_eq!(url, "https://y/v");
        }
        _ => panic!("expected VideoLinkNotExist"),
    }
}

#[test]
fn other_fetch_failures_are_the_servers_fault() {
    let stderr = "ERROR: unable to write to disk";
    assert!(!is_url_problem(stderr));
    let e = classify_fetch_failure("https://y/v".into(), stderr.into());
    match e {
        AppError::Server(ServerError::VideoDownload(msg)) => {
            assert_eq!(msg, stderr);
        }
        _ => panic!("expected VideoDownload"),
    }
}

#[test]
fn url_problem_phrases() {
    assert!(is_url_problem("'abc' is not a valid URL"));
    assert!(is_url_problem("Failed to resolve host"));
    assert!(is_url_problem("Incomplete YouTube ID abc"));
    assert!(!is_url_problem(""));
    assert!(!is_url_problem("Video unavailabl"));
}

#[test]
fn fetch_transition() {
    let (st, go) = after_fetch(
        "u".into(),
        "conda x".into(),
        CmdOutcome::Exited {
            success: true,
            stderr: String::new(),
        },
    );
    assert!(matches!(st, TaskStatus::Pending));
    assert!(go);

    let (st, go) = after_fetch("u".into(), "conda x".into(), CmdOutcome::LaunchFailed);
    match st {
        TaskStatus::Failed(AppError::Server(ServerError::IssueCommand(cmd))) => {
            assert_eq!(cmd, "conda x");
        }
        _ => panic!("expected IssueCommand"),
    }
    assert!(!go);

    let (st, go) = after_fetch(
        "u".into(),
        "conda x".into(),
        CmdOutcome::Exited {
            success: false,
            stderr: "Video unavailable".into(),
        },
    );
    assert!(matches!(
        st,
        TaskStatus::Failed(AppError::Client(ClientError::VideoLinkNotExist(_)))
    ));
    assert!(!go);
}

#[test]
fn model_transition() {
    let (st, go) = after_model(
        "conda m".into(),
        CmdOutcome::Exited {
            success: true,
            stderr: String::new(),
        },
    );
    assert!(matches!(st, TaskStatus::Done));
    assert!(go);

    let (st, _) = after_model(
        "conda m".into(),
        CmdOutcome::Exited {
            success: false,
            stderr: "whisper died".into(),
        },
    );
    match st {
        TaskStatus::Failed(AppError::Server(ServerError::AiModel(msg))) => {
            assert_eq!(msg, "whisper died");
        }
        _ => panic!("expected AiModel"),
    }

    let (st, _) = after_model("conda m".into(), CmdOutcome::LaunchFailed);
    assert!(matches!(
        st,
        TaskStatus::Failed(AppError::Server(ServerError::IssueCommand(_)))
    ));
}

#[test]
fn zip_transition() {
    assert!(after_zip(
        "zip c".into(),
        CmdOutcome::Exited {
            success: true,
            stderr: String::new(),
        },
    )
    .is_none());

    match after_zip(
        "zip c".into(),
        CmdOutcome::Exited {
            success: false,
            stderr: String::new(),
        },
    ) {
        Some(TaskStatus::Failed(AppError::Server(ServerError::CompressFile))) => {}
        _ => panic!("expected CompressFile"),
    }

    match after_zip("zip c".into(), CmdOutcome::LaunchFailed) {
        Some(TaskStatus::Failed(AppError::Server(ServerError::IssueCommand(cmd)))) => {
            assert_eq!(cmd, "zip c");
        }
        _ => panic!("expected IssueCommand"),
    }
}

#[test]
fn archive_decisions() {
    let req = FetchArchiveReq { uuid: "t".into() };
    let mut state = ServerState::new("/work".into());

    match archive_step(&state, &req.uuid, false, false) {
        ArchiveStep::NotFound(e) => assert_eq!(e.source(), "client"),
        _ => panic!("expected NotFound"),
    }

    match archive_step(&state, "t", true, true) {
        ArchiveStep::Stream => {}
        _ => panic!("expected Stream"),
    }

    match archive_step(&state, "t", true, false) {
        ArchiveStep::StartCompress => {}
        _ => panic!("expected StartCompress"),
    }

    state.update_task("t", task_err(AppError::Server(ServerError::CompressFile)));
    match archive_step(&state, "t", true, false) {
        ArchiveStep::Failed(e) => {
            assert_eq!(e.info(), "Failed to compress files.");
        }
        _ => panic!("expected Failed"),
    }

    // A finished archive streams even while an error is still recorded.
    match archive_step(&state, "t", true, true) {
        ArchiveStep::Stream => {}
        _ => panic!("expected Stream"),
    }
}

#[test]
fn command_lines_and_arguments() {
    let args = fetch_args("https://y/v", "/w/t/audio.mp3");
    assert_eq!(
        args,
        vec![
            "run".to_string(),
            "-n".to_string(),
            "server".to_string(),
            "download_mp3.sh".to_string(),
            "https://y/v".to_string(),
            "/w/t/audio.mp3".to_string(),
        ]
    );
    assert_eq!(
        command_line("conda", &args),
        "conda run -n server download_mp3.sh https://y/v /w/t/audio.mp3"
    );

    let args = model_args("/w/t/audio.mp3", "/w/t");
    assert_eq!(
        command_line("conda", &args),
        "conda run -n server run_model.sh /w/t/audio.mp3 /w/t"
    );

    let args = zip_args("/w/t/archive.zip");
    assert_eq!(command_line("zip", &args), "zip -r /w/t/archive.zip .");

    let empty: Vec<String> = Vec::new();
    assert_eq!(command_line("conda", &empty), "conda ");
}

#[test]
fn working_directories_are_isolated() {
    let d1 = join_path("/work", "token-a");
    let d2 = join_path("/work", "token-b");
    assert_ne!(d1, d2);
    assert_eq!(d1, "/work/token-a");
    assert_eq!(audio_file_path(&d1), "/work/token-a/audio.mp3");
    assert_eq!(summary_file_path(&d1), "/work/token-a/summary.txt");
    assert_eq!(archive_file_path(&d1), "/work/token-a/archive.zip");

    // Registry half: writes to one token never touch the other.
    let mut state = ServerState::new("/work".into());
    state.update_task("token-a", TaskStatus::Download);
    state.update_task("token-b", TaskStatus::Pending);
    state.update_task("token-a", TaskStatus::Done);
    assert!(matches!(
        state.get_task("token-b"),
        Some(TaskStatus::Pending)
    ));
    state.remove_task("token-b");
    assert!(matches!(state.get_task("token-a"), Some(TaskStatus::Done)));
}
