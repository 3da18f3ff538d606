//! The reachability probe: what counts as a live server, and what is
//! reported of one that is not.

use vstd::prelude::*;
use crate::numeric::{decimal_chars, decimal_text};
use crate::text::{concat2, concat3, contains_text, occurs_at, string_of};

verus! {

/// Seconds after which a probe is given up.
pub const PROBE_TIMEOUT_SECONDS: u64 = 8;

/// Number of redirects that a probe follows at most.
pub const PROBE_REDIRECT_LIMIT: usize = 5;

/// What came of the one GET request of a probe.
pub enum ProbeOutcome {
    /// The HTTP client could not be set up.
    ClientFailed { error: String },
    /// No response came: a transport, DNS or timeout failure.
    Unreachable { error: String },
    /// A response came, with the status `code`; `reason` is the phrase that
    /// goes with the code.
    Responded { code: u16, reason: String },
}

/// The mathematical value of a [`ProbeOutcome`].
pub enum ProbeView {
    ClientFailed { error: Seq<char> },
    Unreachable { error: Seq<char> },
    Responded { code: u16, reason: Seq<char> },
}

impl View for ProbeOutcome {
    type V = ProbeView;

    open spec fn view(&self) -> ProbeView {
        match self {
            ProbeOutcome::ClientFailed { error } => ProbeView::ClientFailed { error: error@ },
            ProbeOutcome::Unreachable { error } => ProbeView::Unreachable { error: error@ },
            ProbeOutcome::Responded { code, reason } => ProbeView::Responded {
                code: *code,
                reason: reason@,
            },
        }
    }
}

/// A status that shows a server to be there: success, redirection, or a
/// demand for authorisation (401, 403).
pub open spec fn is_live_status(code: u16) -> bool {
    200 <= code < 400 || code == 401 || code == 403
}

/// A status as it is shown: the code in decimal, a space, the reason.
pub open spec fn shown_status(code: u16, reason: Seq<char>) -> Seq<char> {
    decimal_text(code as nat) + " "@ + reason
}

/// What is reported of a response whose status does not show a live server.
pub open spec fn status_message(code: u16, reason: Seq<char>, url: Seq<char>) -> Seq<char> {
    "Server responded with status "@ + shown_status(code, reason) + " when requesting "@ + url
}

/// What is reported of a request that no response came to.
pub open spec fn unreachable_message(url: Seq<char>, error: Seq<char>) -> Seq<char> {
    "Could not reach server at "@ + url + ": "@ + error
}

/// The verdict on a probe of `url`: reachable, or the error to report.
pub open spec fn reachability(url: Seq<char>, outcome: ProbeView) -> Result<(), Seq<char>> {
    match outcome {
        ProbeView::ClientFailed { error } => Err("HTTP client init failed: "@ + error),
        ProbeView::Unreachable { error } => Err(unreachable_message(url, error)),
        ProbeView::Responded { code, reason } => if is_live_status(code) {
            Ok(())
        } else {
            Err(status_message(code, reason, url))
        },
    }
}

/// View of a verdict.
pub open spec fn verdict_view(v: Result<(), String>) -> Result<(), Seq<char>> {
    match v {
        Ok(_) => Ok(()),
        Err(e) => Err(e@),
    }
}

/// Whether a response with the status `code` shows the server to be there.
pub fn is_reachable_status(code: u16) -> (live: bool)
    ensures
        live == is_live_status(code),
{
    (200 <= code && code < 400) || code == 401 || code == 403
}

/// The verdict on a probe of `url`, given what came of the request.
pub fn check_server_reachable(url: &str, outcome: &ProbeOutcome) -> (verdict: Result<(), String>)
    ensures
        verdict_view(verdict) == reachability(url@, outcome@),
{
    match outcome {
        ProbeOutcome::ClientFailed { error } => Err(
            concat2("HTTP client init failed: ", error.as_str()),
        ),
        ProbeOutcome::Unreachable { error } => Err(
            concat2(concat3("Could not reach server at ", url, ": ").as_str(), error.as_str()),
        ),
        ProbeOutcome::Responded { code, reason } => if is_reachable_status(*code) {
            Ok(())
        } else {
            let number = string_of(&decimal_chars(*code as u64));
            let shown = concat3(number.as_str(), " ", reason.as_str());
            Err(
                concat2(
                    concat3("Server responded with status ", shown.as_str(), " when requesting ")
                        .as_str(),
                    url,
                ),
            )
        },
    }
}

/// The report of a response that does not show a live server holds the
/// status code in decimal, whatever the reason says.
pub proof fn lemma_status_error_names_the_code(
    url: Seq<char>,
    code: u16,
    reason: Seq<char>,
)
    requires
        !is_live_status(code),
    ensures
        reachability(url, ProbeView::Responded { code, reason }) == Err::<(), Seq<char>>(
            status_message(code, reason, url),
        ),
        contains_text(status_message(code, reason, url), decimal_text(code as nat)),
{
    let message = status_message(code, reason, url);
    let head = "Server responded with status "@;
    let number = decimal_text(code as nat);
    assert(message.subrange(head.len() as int, (head.len() + number.len()) as int) =~= number);
    assert(occurs_at(message, number, head.len() as int));
}

/// The report of a request that no response came to holds the text of the
/// failure.
pub proof fn lemma_transport_error_names_the_failure(url: Seq<char>, error: Seq<char>)
    ensures
        reachability(url, ProbeView::Unreachable { error }) == Err::<(), Seq<char>>(
            unreachable_message(url, error),
        ),
        contains_text(unreachable_message(url, error), error),
{
    let message = unreachable_message(url, error);
    let head = "Could not reach server at "@ + url + ": "@;
    assert(message.subrange(head.len() as int, (head.len() + error.len()) as int) =~= error);
    assert(occurs_at(message, error, head.len() as int));
}

/// A probe is reported as reachable exactly where a response came whose
/// status shows a live server.
pub proof fn lemma_reachable_iff_live_status(url: Seq<char>, outcome: ProbeView)
    ensures
        reachability(url, outcome) is Ok <==> (outcome matches ProbeView::Responded { code, .. }
            && is_live_status(code)),
{
}

} // verus!
