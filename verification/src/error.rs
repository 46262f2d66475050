//! Errors seen by a client of the daemon.
use vstd::prelude::*;

verus! {

/// Why a call to the daemon failed.
#[derive(Debug)]
pub enum Error {
    /// The daemon could not be reached.
    Connection(String),
    /// Reading from or writing to the daemon failed.
    Io(std::io::Error),
    /// The daemon's answer could not be understood.
    Protocol(String),
    /// The daemon refused the request, with its reason.
    Daemon(String),
}

/// The abstract value of an [`Error`].
pub enum ErrorView {
    Connection(Seq<char>),
    Io(std::io::Error),
    Protocol(Seq<char>),
    Daemon(Seq<char>),
}

impl View for Error {
    type V = ErrorView;

    open spec fn view(&self) -> ErrorView {
        match self {
            Error::Connection(s) => ErrorView::Connection(s@),
            Error::Io(e) => ErrorView::Io(*e),
            Error::Protocol(s) => ErrorView::Protocol(s@),
            Error::Daemon(s) => ErrorView::Daemon(s@),
        }
    }
}

/// A client result.
pub type Result<T> = std::result::Result<T, Error>;

} // verus!
