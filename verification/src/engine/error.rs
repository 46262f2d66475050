//! Errors of the wallpaper engine and the text each one is reported with.
use vstd::prelude::*;
use crate::text::concat2;

verus! {

/// `std::io::Error`, carried through opaquely.
#[verifier::external_type_specification]
#[verifier::external_body]
pub struct ExIoError(std::io::Error);

/// Why an engine operation failed.
#[derive(Debug)]
pub enum Error {
    NotFound(String),
    UnsupportedType(String),
    Static(String),
    Video(String),
    PlayerUnavailable(String),
    Io(std::io::Error),
}

/// The abstract value of an [`Error`]: the variant and its text.
pub enum ErrorView {
    NotFound(Seq<char>),
    UnsupportedType(Seq<char>),
    Static(Seq<char>),
    Video(Seq<char>),
    PlayerUnavailable(Seq<char>),
    Io(std::io::Error),
}

impl View for Error {
    type V = ErrorView;

    open spec fn view(&self) -> ErrorView {
        match self {
            Error::NotFound(s) => ErrorView::NotFound(s@),
            Error::UnsupportedType(s) => ErrorView::UnsupportedType(s@),
            Error::Static(s) => ErrorView::Static(s@),
            Error::Video(s) => ErrorView::Video(s@),
            Error::PlayerUnavailable(s) => ErrorView::PlayerUnavailable(s@),
            Error::Io(e) => ErrorView::Io(*e),
        }
    }
}

/// The view of an engine result.
pub open spec fn result_view<T: View>(r: Result<T, Error>) -> Result<T::V, ErrorView> {
    match r {
        Ok(v) => Ok(v@),
        Err(e) => Err(e@),
    }
}

/// The report of an I/O error `err` is `"io error: "` followed by `t`, where
/// `t` is a display text of `err` (`to_string`).
pub open spec fn io_report(err: std::io::Error, m: Seq<char>) -> bool {
    exists|t: String|
        #[trigger] vstd::string::to_string_from_display_ensures::<std::io::Error>(&err, t) && m
            == "io error: "@ + t@
}

/// The report of an error whose variant carries a text: a fixed label, then
/// the text. For an I/O error this gives only the label `"io error: "`; the
/// whole report of an I/O error is described by [`io_report`].
pub open spec fn error_message(e: ErrorView) -> Seq<char> {
    match e {
        ErrorView::NotFound(s) => "wallpaper file not found: "@ + s,
        ErrorView::UnsupportedType(s) => "unsupported file type: "@ + s,
        ErrorView::Static(s) => "failed to set static wallpaper: "@ + s,
        ErrorView::Video(s) => "failed to start video wallpaper: "@ + s,
        ErrorView::PlayerUnavailable(s) => "video player not available: "@ + s,
        ErrorView::Io(err) => "io error: "@,
    }
}

impl Error {
    /// The human-readable report of this error. For an I/O error it is
    /// `"io error: "` followed by the I/O error's own display text.
    pub fn message(&self) -> (m: String)
        ensures
            !(self@ is Io) ==> m@ == error_message(self@),
            self@ matches ErrorView::Io(err) ==> io_report(err, m@),
    {
        match self {
            Error::NotFound(s) => concat2("wallpaper file not found: ", s.as_str()),
            Error::UnsupportedType(s) => concat2("unsupported file type: ", s.as_str()),
            Error::Static(s) => concat2("failed to set static wallpaper: ", s.as_str()),
            Error::Video(s) => concat2("failed to start video wallpaper: ", s.as_str()),
            Error::PlayerUnavailable(s) => concat2("video player not available: ", s.as_str()),
            Error::Io(e) => {
                let t = e.to_string();
                let m = concat2("io error: ", t.as_str());
                assert(vstd::string::to_string_from_display_ensures::<std::io::Error>(e, t));
                assert(io_report(*e, m@));
                m
            },
        }
    }
}

} // verus!
