//! The error taxonomy: client faults versus server faults.
//!
//! Every failure the service reports is either a [`ClientError`] (caused by
//! invalid caller input or an unknown token, never retried) or a
//! [`ServerError`] (caused by the environment, a resource, or an external
//! tool).  [`AppError`] is the sum of the two.  Each error renders a fixed
//! human-readable message, specified exactly by the `*_view` spec functions.

use vstd::prelude::*;
use vstd::string::StringExecFns;

use crate::text::dec_seq;
use crate::text::esc_seq;
use crate::text::push_json_escaped;
use crate::text::push_u64;

verus! {

/// Result alias used by the service logic.
pub type AppResult<T> = Result<T, AppError>;

/// Errors due to the caller's fault: cannot be recovered server-side.
#[derive(Debug)]
pub enum ClientError {
    /// Either the generated files were cleared or the token is broken.
    TokenNotExist(String),
    /// The link is not accessible by the server.
    VideoLinkNotExist(String),
}

/// Errors due to the server's fault: cannot be recovered at the client.
#[derive(Debug)]
pub enum ServerError {
    /// Probably the port is occupied, or a permission issue.
    BindPort(usize),
    /// Error related to path handling.
    ParsePath(String),
    /// A file read failed.
    ReadFile(String),
    /// A command could not be launched at all (as opposed to exiting non-zero).
    IssueCommand(String),
    /// Compressing the working directory failed.
    CompressFile,
    /// Serving HTTP failed.
    ServeFailure,
    /// The summarization tool exited with a failure.
    AiModel(String),
    /// The fetch tool failed on a valid link.
    VideoDownload(String),
}

/// Sum type over the two fault kinds.
#[derive(Debug)]
pub enum AppError {
    Client(ClientError),
    Server(ServerError),
}

/// Mathematical model of a [`ClientError`].
pub enum ClientErrorView {
    TokenNotExist(Seq<char>),
    VideoLinkNotExist(Seq<char>),
}

/// Mathematical model of a [`ServerError`].
pub enum ServerErrorView {
    BindPort(int),
    ParsePath(Seq<char>),
    ReadFile(Seq<char>),
    IssueCommand(Seq<char>),
    CompressFile,
    ServeFailure,
    AiModel(Seq<char>),
    VideoDownload(Seq<char>),
}

/// Mathematical model of an [`AppError`].
pub enum AppErrorView {
    Client(ClientErrorView),
    Server(ServerErrorView),
}

impl View for ClientError {
    type V = ClientErrorView;

    open spec fn view(&self) -> ClientErrorView {
        match self {
            ClientError::TokenNotExist(t) => ClientErrorView::TokenNotExist(t@),
            ClientError::VideoLinkNotExist(l) => ClientErrorView::VideoLinkNotExist(l@),
        }
    }
}

impl View for ServerError {
    type V = ServerErrorView;

    open spec fn view(&self) -> ServerErrorView {
        match self {
            ServerError::BindPort(p) => ServerErrorView::BindPort(*p as int),
            ServerError::ParsePath(s) => ServerErrorView::ParsePath(s@),
            ServerError::ReadFile(s) => ServerErrorView::ReadFile(s@),
            ServerError::IssueCommand(s) => ServerErrorView::IssueCommand(s@),
            ServerError::CompressFile => ServerErrorView::CompressFile,
            ServerError::ServeFailure => ServerErrorView::ServeFailure,
            ServerError::AiModel(s) => ServerErrorView::AiModel(s@),
            ServerError::VideoDownload(s) => ServerErrorView::VideoDownload(s@),
        }
    }
}

impl View for AppError {
    type V = AppErrorView;

    open spec fn view(&self) -> AppErrorView {
        match self {
            AppError::Client(e) => AppErrorView::Client(e@),
            AppError::Server(e) => AppErrorView::Server(e@),
        }
    }
}

impl ClientError {
    /// The fixed human-readable message for this error.
    pub open spec fn info_view(&self) -> Seq<char> {
        match self {
            ClientError::TokenNotExist(_) => "Attempt to query non-existing token."@,
            ClientError::VideoLinkNotExist(l) => "The link ("@ + l@ + ") to video does not exist."@,
        }
    }

    /// Renders the message exactly as [`Self::info_view`] states it.
    pub fn info(&self) -> (r: String)
        ensures
            r@ == self.info_view(),
    {
        match self {
            ClientError::TokenNotExist(_) => String::from_str(
                "Attempt to query non-existing token.",
            ),
            ClientError::VideoLinkNotExist(l) => {
                let mut s = String::from_str("The link (");
                s.append(l.as_str());
                s.append(") to video does not exist.");
                proof {
                    assert(s@ =~= self.info_view());
                }
                s
            },
        }
    }
}

impl ServerError {
    /// The fixed human-readable message for this error.
    pub open spec fn info_view(&self) -> Seq<char> {
        match self {
            ServerError::BindPort(p) => "Listen to port "@ + dec_seq(*p as nat) + " failed."@,
            ServerError::ParsePath(s) => "Parsing "@ + s@ + " failed."@,
            ServerError::ReadFile(s) => "Async read file "@ + s@ + " failed."@,
            ServerError::IssueCommand(s) => "Issue command "@ + s@ + " failed."@,
            ServerError::CompressFile => "Failed to compress files."@,
            ServerError::ServeFailure => "Axum serve failed."@,
            ServerError::AiModel(s) => "AI model abort with failure "@ + s@ + "."@,
            ServerError::VideoDownload(s) => "video download failed, cause: "@ + s@ + "."@,
        }
    }

    /// Renders the message exactly as [`Self::info_view`] states it.
    pub fn info(&self) -> (r: String)
        ensures
            r@ == self.info_view(),
    {
        match self {
            ServerError::BindPort(p) => {
                let mut s = String::from_str("Listen to port ");
                push_u64(&mut s, *p as u64);
                s.append(" failed.");
                proof {
                    assert(s@ =~= self.info_view());
                }
                s
            },
            ServerError::ParsePath(path) => {
                let mut s = String::from_str("Parsing ");
                s.append(path.as_str());
                s.append(" failed.");
                proof {
                    assert(s@ =~= self.info_view());
                }
                s
            },
            ServerError::ReadFile(path) => {
                let mut s = String::from_str("Async read file ");
                s.append(path.as_str());
                s.append(" failed.");
                proof {
                    assert(s@ =~= self.info_view());
                }
                s
            },
            ServerError::IssueCommand(cmd) => {
                let mut s = String::from_str("Issue command ");
                s.append(cmd.as_str());
                s.append(" failed.");
                proof {
                    assert(s@ =~= self.info_view());
                }
                s
            },
            ServerError::CompressFile => String::from_str("Failed to compress files."),
            ServerError::ServeFailure => String::from_str("Axum serve failed."),
            ServerError::AiModel(msg) => {
                let mut s = String::from_str("AI model abort with failure ");
                s.append(msg.as_str());
                s.append(".");
                proof {
                    assert(s@ =~= self.info_view());
                }
                s
            },
            ServerError::VideoDownload(msg) => {
                let mut s = String::from_str("video download failed, cause: ");
                s.append(msg.as_str());
                s.append(".");
                proof {
                    assert(s@ =~= self.info_view());
                }
                s
            },
        }
    }
}

impl AppError {
    /// Which side is at fault: `"client"` or `"server"`.
    pub open spec fn source_view(&self) -> Seq<char> {
        match self {
            AppError::Client(_) => "client"@,
            AppError::Server(_) => "server"@,
        }
    }

    /// The message of the underlying error.
    pub open spec fn info_view(&self) -> Seq<char> {
        match self {
            AppError::Client(e) => e.info_view(),
            AppError::Server(e) => e.info_view(),
        }
    }

    /// Returns `"client"` or `"server"` exactly as [`Self::source_view`] states.
    pub fn source(&self) -> (r: &'static str)
        ensures
            r@ == self.source_view(),
    {
        match self {
            AppError::Client(_) => "client",
            AppError::Server(_) => "server",
        }
    }

    /// Renders the message exactly as [`Self::info_view`] states it.
    pub fn info(&self) -> (r: String)
        ensures
            r@ == self.info_view(),
    {
        match self {
            AppError::Client(e) => e.info(),
            AppError::Server(e) => e.info(),
        }
    }

    /// The JSON object describing this error: its source and its message,
    /// the message escaped as a JSON string body.
    pub open spec fn err_obj_view(&self) -> Seq<char> {
        "{\"source\":\""@ + self.source_view() + "\",\"info\":\""@ + esc_seq(self.info_view())
            + "\"}"@
    }

    /// Renders the error object exactly as [`Self::err_obj_view`] states it.
    pub fn err_obj_json(&self) -> (r: String)
        ensures
            r@ == self.err_obj_view(),
    {
        let mut s = String::from_str("{\"source\":\"");
        s.append(self.source());
        s.append("\",\"info\":\"");
        let info = self.info();
        push_json_escaped(&mut s, info.as_str());
        s.append("\"}");
        proof {
            assert(s@ =~= self.err_obj_view());
        }
        s
    }

    /// The standalone JSON rendering of an error.  A quirk of the wire
    /// format: the `success` field carries the string `"false"`.
    pub open spec fn json_view(&self) -> Seq<char> {
        "{\"success\":\"false\",\"err\":"@ + self.err_obj_view() + "}"@
    }

    /// Renders the error exactly as [`Self::json_view`] states it.
    pub fn to_json(&self) -> (r: String)
        ensures
            r@ == self.json_view(),
    {
        let mut s = String::from_str("{\"success\":\"false\",\"err\":");
        let obj = self.err_obj_json();
        s.append(obj.as_str());
        s.append("}");
        proof {
            assert(s@ =~= self.json_view());
        }
        s
    }
}

impl Clone for ClientError {
    fn clone(&self) -> (r: Self)
        ensures
            r@ == self@,
    {
        match self {
            ClientError::TokenNotExist(t) => ClientError::TokenNotExist(t.clone()),
            ClientError::VideoLinkNotExist(l) => ClientError::VideoLinkNotExist(l.clone()),
        }
    }
}

impl Clone for ServerError {
    fn clone(&self) -> (r: Self)
        ensures
            r@ == self@,
    {
        match self {
            ServerError::BindPort(p) => ServerError::BindPort(*p),
            ServerError::ParsePath(s) => ServerError::ParsePath(s.clone()),
            ServerError::ReadFile(s) => ServerError::ReadFile(s.clone()),
            ServerError::IssueCommand(s) => ServerError::IssueCommand(s.clone()),
            ServerError::CompressFile => ServerError::CompressFile,
            ServerError::ServeFailure => ServerError::ServeFailure,
            ServerError::AiModel(s) => ServerError::AiModel(s.clone()),
            ServerError::VideoDownload(s) => ServerError::VideoDownload(s.clone()),
        }
    }
}

impl Clone for AppError {
    fn clone(&self) -> (r: Self)
        ensures
            r@ == self@,
    {
        match self {
            AppError::Client(e) => AppError::Client(e.clone()),
            AppError::Server(e) => AppError::Server(e.clone()),
        }
    }
}

} // verus!
