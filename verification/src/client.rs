//! The decisions a client makes on the daemon's answers.
use vstd::prelude::*;
use crate::error::{Error, ErrorView};
use crate::engine::error::error_message;
use crate::engine::error::ErrorView as EngineErrorView;
use crate::protocol::{DAEMON_TCP_ADDR, Response, ResponseView, failure_view, success_view};
use crate::text::{concat2, concat3};

verus! {

/// The report when a refusal came without a reason.
pub open spec fn unknown_daemon_error() -> Seq<char> {
    "unknown daemon error"@
}

/// The report when a successful answer carries no data.
pub open spec fn missing_data() -> Seq<char> {
    "response missing data"@
}

/// What an answer means to the client: a refusal is a daemon error with the
/// daemon's reason (or a fixed one when none was given); a success is its
/// data, and a success without data is a protocol error.
pub open spec fn answer_of(r: ResponseView) -> std::result::Result<serde_json::Value, ErrorView> {
    if !r.ok {
        Err(
            ErrorView::Daemon(
                match r.error {
                    Some(m) => m,
                    None => unknown_daemon_error(),
                },
            ),
        )
    } else {
        match r.data {
            Some(v) => Ok(v),
            None => Err(ErrorView::Protocol(missing_data())),
        }
    }
}

/// The view of a client result.
pub open spec fn client_result_view<T>(r: std::result::Result<T, Error>) -> std::result::Result<
    T,
    ErrorView,
> {
    match r {
        Ok(v) => Ok(v),
        Err(e) => Err(e@),
    }
}

/// The data of the daemon's answer, or why there is none.
pub fn response_data(response: Response) -> (r: std::result::Result<serde_json::Value, Error>)
    ensures
        client_result_view(r) == answer_of(response@),
{
    if !response.ok {
        let m = match response.error {
            Some(m) => m,
            None => String::from_str("unknown daemon error"),
        };
        return Err(Error::Daemon(m));
    }
    match response.data {
        Some(v) => Ok(v),
        None => Err(Error::Protocol(String::from_str("response missing data"))),
    }
}

/// The error when the daemon cannot be reached, with the reason.
pub fn connection_failed(reason: &str) -> (r: Error)
    ensures
        r@ == ErrorView::Connection("daemon not running at "@ + DAEMON_TCP_ADDR@ + ": "@ + reason@),
{
    let head = concat3("daemon not running at ", DAEMON_TCP_ADDR, ": ");
    Error::Connection(concat2(head.as_str(), reason))
}

/// The error when the daemon's answer is not a valid response line.
pub fn invalid_response(reason: &str) -> (r: Error)
    ensures
        r@ == ErrorView::Protocol("invalid response: "@ + reason@),
{
    Error::Protocol(concat2("invalid response: ", reason))
}

/// What the daemon answers to an engine operation reaches the client
/// unchanged: the data of a success, or a daemon error whose reason is the
/// report of the engine's error.
pub proof fn lemma_engine_outcome_reaches_client(
    outcome: std::result::Result<serde_json::Value, EngineErrorView>,
)
    requires
        !(outcome matches Err(e) && e is Io),
    ensures
        answer_of(
            match outcome {
                Ok(v) => success_view(v),
                Err(e) => failure_view(error_message(e)),
            },
        ) == match outcome {
            Ok(v) => Ok(v),
            Err(e) => Err::<serde_json::Value, ErrorView>(ErrorView::Daemon(error_message(e))),
        },
{
}

/// A refusal reaches the client as a daemon error with the same reason.
pub proof fn lemma_refusal_reaches_client(message: Seq<char>)
    ensures
        answer_of(failure_view(message)) == Err::<serde_json::Value, ErrorView>(
            ErrorView::Daemon(message),
        ),
{
}

} // verus!
