//! The messages exchanged between the daemon and its clients.
use vstd::prelude::*;
use crate::engine::error::{Error, ErrorView, error_message, io_report};
use crate::text::{concat2, trim, trimmed};

verus! {

/// Dev IPC address. Swap to Unix socket / named pipe later.
pub const DAEMON_TCP_ADDR: &'static str = "127.0.0.1:42069";

/// `serde_json::Value`, carried through opaquely.
#[verifier::external_type_specification]
#[verifier::external_body]
pub struct ExJsonValue(serde_json::Value);

/// A request to the daemon.
#[derive(Debug, Clone)]
pub enum Request {
    HelloWorld,
    Status,
    Shutdown,
    SetStaticWallpaper { path: String },
    SetVideoWallpaper { path: String },
    ClearWallpaper,
    GetActiveWallpaper,
}

pub enum RequestView {
    HelloWorld,
    Status,
    Shutdown,
    SetStaticWallpaper { path: Seq<char> },
    SetVideoWallpaper { path: Seq<char> },
    ClearWallpaper,
    GetActiveWallpaper,
}

impl View for Request {
    type V = RequestView;

    open spec fn view(&self) -> RequestView {
        match self {
            Request::HelloWorld => RequestView::HelloWorld,
            Request::Status => RequestView::Status,
            Request::Shutdown => RequestView::Shutdown,
            Request::SetStaticWallpaper { path } => RequestView::SetStaticWallpaper { path: path@ },
            Request::SetVideoWallpaper { path } => RequestView::SetVideoWallpaper { path: path@ },
            Request::ClearWallpaper => RequestView::ClearWallpaper,
            Request::GetActiveWallpaper => RequestView::GetActiveWallpaper,
        }
    }
}

/// The daemon's description of itself.
#[derive(Debug, Clone)]
pub struct DaemonStatus {
    pub version: String,
    pub uptime_secs: u64,
    pub pid: u32,
    pub platform: String,
}

/// The daemon's answer to one request: on success the request's data, on
/// failure the reason.
#[derive(Debug)]
pub struct Response {
    pub ok: bool,
    pub data: Option<serde_json::Value>,
    pub error: Option<String>,
}

pub struct ResponseView {
    pub ok: bool,
    pub data: Option<serde_json::Value>,
    pub error: Option<Seq<char>>,
}

impl View for Response {
    type V = ResponseView;

    open spec fn view(&self) -> ResponseView {
        ResponseView {
            ok: self.ok,
            data: self.data,
            error: match self.error {
                Some(e) => Some(e@),
                None => None,
            },
        }
    }
}

/// A successful answer carrying `data`.
pub open spec fn success_view(data: serde_json::Value) -> ResponseView {
    ResponseView { ok: true, data: Some(data), error: None }
}

/// A refusal carrying `message`.
pub open spec fn failure_view(message: Seq<char>) -> ResponseView {
    ResponseView { ok: false, data: None, error: Some(message) }
}

impl Response {
    /// A successful answer carrying `data` (the serialised result).
    pub fn success(data: serde_json::Value) -> (r: Self)
        ensures
            r@ == success_view(data),
    {
        Response { ok: true, data: Some(data), error: None }
    }

    /// A refusal with `message` as its reason.
    pub fn failure(message: String) -> (r: Self)
        ensures
            r@ == failure_view(message@),
    {
        Response { ok: false, data: None, error: Some(message) }
    }

    /// The answer to an engine operation: its serialised result on success,
    /// otherwise a refusal whose reason is the error's report.
    pub fn from_outcome(outcome: std::result::Result<serde_json::Value, Error>) -> (r: Self)
        ensures
            match outcome {
                Ok(v) => r@ == success_view(v),
                Err(e) => !(e@ is Io) ==> r@ == failure_view(error_message(e@)),
            },
            match outcome {
                Err(Error::Io(err)) => !r.ok && r.data is None && (r.error matches Some(m)
                    && io_report(err, m@)),
                _ => true,
            },
    {
        match outcome {
            Ok(v) => Response::success(v),
            Err(e) => Response::failure(e.message()),
        }
    }

    /// The answer to a line that is not a valid request.
    pub fn invalid_request(reason: &str) -> (r: Self)
        ensures
            r@ == failure_view("invalid request: "@ + reason@),
    {
        Response::failure(concat2("invalid request: ", reason))
    }
}

/// A request line that holds only whitespace is skipped without an answer.
pub fn is_blank_line(line: &str) -> (r: bool)
    ensures
        r == (trimmed(line@).len() == 0),
{
    trim(line).unicode_len() == 0
}

/// A message as sent on the wire: the serialised message followed by a
/// line feed, one message per line.
pub fn frame_line(payload: &str) -> (r: String)
    ensures
        r@ == payload@.push('\n'),
{
    let r = concat2(payload, "\n");
    proof {
        reveal_strlit("\n");
    }
    assert(r@ =~= payload@.push('\n'));
    r
}

} // verus!
