//! What the daemon does for each request.
use vstd::prelude::*;
use crate::protocol::{Request, RequestView};

verus! {

/// The daemon's greeting.
pub open spec fn hello_reply() -> Seq<char> {
    "hello from wallcovedaemon"@
}

/// The daemon's answer to a shutdown request.
pub open spec fn shutdown_reply() -> Seq<char> {
    "shutting down wallcovedaemon"@
}

/// The work a request asks of the daemon.
pub enum RequestAction {
    /// Answer with this text and do nothing else.
    Reply(String),
    /// Answer with the daemon's status.
    ReportStatus,
    /// Shut the engine down, stop serving, and answer with `reply`.
    Shutdown { reply: String },
    /// Show the still image at this path.
    SetStaticWallpaper(String),
    /// Show the video at this path.
    SetVideoWallpaper(String),
    /// Clear the desktop.
    ClearWallpaper,
    /// Answer with the active wallpaper.
    GetActiveWallpaper,
}

pub enum RequestActionView {
    Reply(Seq<char>),
    ReportStatus,
    Shutdown { reply: Seq<char> },
    SetStaticWallpaper(Seq<char>),
    SetVideoWallpaper(Seq<char>),
    ClearWallpaper,
    GetActiveWallpaper,
}

impl View for RequestAction {
    type V = RequestActionView;

    open spec fn view(&self) -> RequestActionView {
        match self {
            RequestAction::Reply(t) => RequestActionView::Reply(t@),
            RequestAction::ReportStatus => RequestActionView::ReportStatus,
            RequestAction::Shutdown { reply } => RequestActionView::Shutdown { reply: reply@ },
            RequestAction::SetStaticWallpaper(p) => RequestActionView::SetStaticWallpaper(p@),
            RequestAction::SetVideoWallpaper(p) => RequestActionView::SetVideoWallpaper(p@),
            RequestAction::ClearWallpaper => RequestActionView::ClearWallpaper,
            RequestAction::GetActiveWallpaper => RequestActionView::GetActiveWallpaper,
        }
    }
}

/// The work each request asks for: a greeting is answered with a fixed
/// text, a shutdown with another, and each wallpaper request maps to the
/// engine operation of the same name, with its path.
pub open spec fn action_of(req: RequestView) -> RequestActionView {
    match req {
        RequestView::HelloWorld => RequestActionView::Reply(hello_reply()),
        RequestView::Status => RequestActionView::ReportStatus,
        RequestView::Shutdown => RequestActionView::Shutdown { reply: shutdown_reply() },
        RequestView::SetStaticWallpaper { path } => RequestActionView::SetStaticWallpaper(path),
        RequestView::SetVideoWallpaper { path } => RequestActionView::SetVideoWallpaper(path),
        RequestView::ClearWallpaper => RequestActionView::ClearWallpaper,
        RequestView::GetActiveWallpaper => RequestActionView::GetActiveWallpaper,
    }
}

/// The work that `req` asks of the daemon.
pub fn request_action(req: Request) -> (r: RequestAction)
    ensures
        r@ == action_of(req@),
{
    match req {
        Request::HelloWorld => RequestAction::Reply(String::from_str("hello from wallcovedaemon")),
        Request::Status => RequestAction::ReportStatus,
        Request::Shutdown => RequestAction::Shutdown {
            reply: String::from_str("shutting down wallcovedaemon"),
        },
        Request::SetStaticWallpaper { path } => RequestAction::SetStaticWallpaper(path),
        Request::SetVideoWallpaper { path } => RequestAction::SetVideoWallpaper(path),
        Request::ClearWallpaper => RequestAction::ClearWallpaper,
        Request::GetActiveWallpaper => RequestAction::GetActiveWallpaper,
    }
}

/// Each request leads to the work it names: a wallpaper request to the
/// engine operation of the same kind on the same path (a still image is
/// never handed to the video operation, nor a video to the image one), the
/// greeting and the shutdown to their fixed answers, and the other requests
/// to the reports they ask for.
pub proof fn lemma_request_leads_to_its_own_operation(req: RequestView, p: Seq<char>)
    ensures
        action_of(RequestView::SetStaticWallpaper { path: p })
            == RequestActionView::SetStaticWallpaper(p),
        action_of(RequestView::SetVideoWallpaper { path: p })
            == RequestActionView::SetVideoWallpaper(p),
        action_of(RequestView::HelloWorld) == RequestActionView::Reply(
            "hello from wallcovedaemon"@,
        ),
        action_of(RequestView::Shutdown) == (RequestActionView::Shutdown {
            reply: "shutting down wallcovedaemon"@,
        }),
        action_of(RequestView::Status) == RequestActionView::ReportStatus,
        action_of(RequestView::ClearWallpaper) == RequestActionView::ClearWallpaper,
        action_of(RequestView::GetActiveWallpaper) == RequestActionView::GetActiveWallpaper,
        (action_of(req) is SetStaticWallpaper) <==> (req is SetStaticWallpaper),
        (action_of(req) is SetVideoWallpaper) <==> (req is SetVideoWallpaper),
{
}

} // verus!
