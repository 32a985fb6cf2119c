use summary_server::exception::AppError;
use summary_server::exception::ClientError;
use summary_server::exception::ServerError;
use summary_server::models::AppResp;
use summary_server::models::FetchArchiveResp;
use summary_server::models::InitiateResp;
use summary_server::models::PollStatusResp;
use summary_server::models::TaskStatus;
use summary_server::models::ToJson;

#[test]
fn test_success() {
    let data = InitiateResp { uuid: "123".into() };
    let resp = AppResp::Success(data);
    let serialized = resp.to_json();
    let expected = r#"{"success":true,"data":{"uuid":"123"}}"#;
    assert_eq!(serialized, expected);
}

#[test]
fn test_exception() {
    let err = AppError::Server(ServerError::BindPort(80));
    let serialized = err.to_json();
    let expected =
        r#"{"success":"false","err":{"source":"server","info":"Listen to port 80 failed."}}"#;
    assert_eq!(serialized, expected);
}

#[test]
fn envelope_of_client_error() {
    let resp: AppResp<InitiateResp> =
        AppResp::Exception(AppError::Client(ClientError::TokenNotExist("abc".into())));
    let expected = r#"{"success":false,"err":{"source":"client","info":"Attempt to query non-existing token."}}"#;
    assert_eq!(resp.to_json(), expected);
}

#[test]
fn poll_resp_in_progress_json() {
    let resp = PollStatusResp {
        done: false,
        stage: TaskStatus::Download,
        result: None,
    };
    assert_eq!(
        resp.to_json(),
        r#"{"done":false,"stage":"Download","result":null}"#
    );
    let resp = PollStatusResp {
        done: false,
        stage: TaskStatus::Pending,
        result: None,
    };
    assert_eq!(
        resp.to_json(),
        r#"{"done":false,"stage":"Pending","result":null}"#
    );
}

#[test]
fn poll_resp_done_json() {
    let resp = PollStatusResp {
        done: true,
        stage: TaskStatus::Done,
        result: Some("a fine summary".into()),
    };
    assert_eq!(
        resp.to_json(),
        r#"{"done":true,"stage":"Done","result":"a fine summary"}"#
    );
}

#[test]
fn archive_resp_json() {
    let resp = FetchArchiveResp { init: true };
    assert_eq!(resp.to_json(), r#"{"init":true}"#);
    let resp = FetchArchiveResp { init: false };
    assert_eq!(resp.to_json(), r#"{"init":false}"#);
}

#[test]
fn stage_labels() {
    assert_eq!(TaskStatus::Done.label(), "Done");
    assert_eq!(TaskStatus::Download.label(), "Download");
    assert_eq!(TaskStatus::Pending.label(), "Pending");
    let failed = TaskStatus::Failed(AppError::Server(ServerError::CompressFile));
    assert_eq!(failed.label(), "Err");
}

#[test]
fn json_escapes_special_characters() {
    let resp = InitiateResp {
        uuid: "a\"b\\c\nd".into(),
    };
    assert_eq!(resp.to_json(), r#"{"uuid":"a\"b\\c\nd"}"#);
    let resp = InitiateResp {
        uuid: "\u{1}\t\r\u{8}\u{c}\u{1f}".into(),
    };
    assert_eq!(resp.to_json(), r#"{"uuid":"\u0001\t\r\b\f\u001f"}"#);
}

#[test]
fn server_error_messages() {
    assert_eq!(
        ServerError::BindPort(0).info(),
        "Listen to port 0 failed."
    );
    assert_eq!(
        ServerError::BindPort(65535).info(),
        "Listen to port 65535 failed."
    );
    assert_eq!(
        ServerError::ParsePath("/tmp/x".into()).info(),
        "Parsing /tmp/x failed."
    );
    assert_eq!(
        ServerError::ReadFile("/w/t/summary.txt".into()).info(),
        "Async read file /w/t/summary.txt failed."
    );
    assert_eq!(
        ServerError::IssueCommand("conda run x".into()).info(),
        "Issue command conda run x failed."
    );
    assert_eq!(
        ServerError::CompressFile.info(),
        "Failed to compress files."
    );
    assert_eq!(ServerError::ServeFailure.info(), "Axum serve failed.");
    assert_eq!(
        ServerError::AiModel("boom".into()).info(),
        "AI model abort with failure boom."
    );
    assert_eq!(
        ServerError::VideoDownload("403".into()).info(),
        "video download failed, cause: 403."
    );
}

#[test]
fn client_error_messages() {
    assert_eq!(
        ClientError::TokenNotExist("whatever".into()).info(),
        "Attempt to query non-existing token."
    );
    assert_eq!(
        ClientError::VideoLinkNotExist("https://x".into()).info(),
        "The link (https://x) to video does not exist."
    );
}

#[test]
fn error_sources() {
    let client = AppError::Client(ClientError::TokenNotExist("t".into()));
    assert_eq!(client.source(), "client");
    let server = AppError::Server(ServerError::CompressFile);
    assert_eq!(server.source(), "server");
}

#[test]
fn error_info_is_escaped_in_json() {
    let err = AppError::Server(ServerError::AiModel("line1\nline2 \"q\"".into()));
    assert_eq!(
        err.err_obj_json(),
        r#"{"source":"server","info":"AI model abort with failure line1\nline2 \"q\"."}"#
    );
}
