//! The locality fetch: the connectivity probe, and the mapping from what
//! the HTTP transport reported to the outcome handed back to the caller.
//!
//! The network round trip itself is I/O and lives outside the library; it
//! is summarised here as a [`TransportEvent`]. Deciding what that event
//! means — which stage failed, how its message is worded, when the raw
//! payload is passed through — is this module's logic.

use crate::digits::spec_decimal;
use vstd::prelude::*;

verus! {

/// What the transport reported for one invocation, one variant per stage
/// at which the round trip can end.
pub enum TransportEvent {
    /// The HTTP client could not be constructed; `cause` is the underlying
    /// error, rendered as text.
    ClientBuildFailed { cause: String },
    /// The request could not be sent, or no response arrived within the
    /// timeout; `cause` is the underlying error, rendered as text.
    SendFailed { cause: String },
    /// A response arrived with status `status`; `body` is its text, or the
    /// read error if the body could not be read.
    Responded { status: u16, body: Result<String, String> },
}

/// An HTTP status in the success range.
pub open spec fn spec_is_success_status(status: u16) -> bool {
    200 <= status < 300
}

/// The failure message for a client that could not be built.
pub open spec fn spec_client_error(cause: Seq<char>) -> Seq<char> {
    "Kunne ikke opprette HTTP-klient: "@ + cause
}

/// The failure message for a request that could not be sent.
pub open spec fn spec_network_error(cause: Seq<char>) -> Seq<char> {
    "Nettverksfeil: "@ + cause
}

/// The failure message for a response with a non-success status: the
/// numeric code, then the response body.
pub open spec fn spec_status_error(status: u16, body: Seq<char>) -> Seq<char> {
    "HTTP-feil "@ + spec_decimal(status as nat) + ": "@ + body
}

/// The failure message for a body that could not be read after a success
/// status.
pub open spec fn spec_read_error(cause: Seq<char>) -> Seq<char> {
    "Kunne ikke lese respons: "@ + cause
}

/// The body text used in a non-success report: the body as read, or the
/// empty string where reading it failed (best effort, never a second
/// error).
pub open spec fn spec_report_body(body: Result<String, String>) -> Seq<char> {
    match body {
        Ok(text) => text@,
        Err(_) => Seq::<char>::empty(),
    }
}

/// The outcome owed for a transport event: the payload verbatim when and
/// only when a success-status response arrived and its body was read;
/// otherwise the failure message of the stage that ended the round trip.
pub open spec fn spec_outcome(event: TransportEvent) -> Result<Seq<char>, Seq<char>> {
    match event {
        TransportEvent::ClientBuildFailed { cause } => Err(spec_client_error(cause@)),
        TransportEvent::SendFailed { cause } => Err(spec_network_error(cause@)),
        TransportEvent::Responded { status, body } => {
            if !spec_is_success_status(status) {
                Err(spec_status_error(status, spec_report_body(body)))
            } else {
                match body {
                    Ok(text) => Ok(text@),
                    Err(cause) => Err(spec_read_error(cause@)),
                }
            }
        },
    }
}

/// `spec_outcome` succeeds exactly here.
pub open spec fn spec_outcome_is_success(event: TransportEvent) -> bool {
    event matches TransportEvent::Responded { status, body } && spec_is_success_status(status)
        && body is Ok
}

/// The text of an outcome, on both sides.
pub open spec fn outcome_view(r: Result<String, String>) -> Result<Seq<char>, Seq<char>> {
    match r {
        Ok(text) => Ok(text@),
        Err(reason) => Err(reason@),
    }
}

/// Fetching is idempotent: against an unchanging backend — one whose
/// transport reports the same event for both invocations — two fetches in
/// sequence are owed the same outcome; in particular, two success-status
/// responses carrying the same payload yield two successes with identical
/// payload text.
pub proof fn lemma_fetch_idempotent(first: TransportEvent, second: TransportEvent)
    requires
        first == second,
    ensures
        spec_outcome(first) == spec_outcome(second),
        spec_outcome_is_success(first) ==> spec_outcome(first) is Ok
            && spec_outcome(second) is Ok
            && spec_outcome(first)->Ok_0 == spec_outcome(second)->Ok_0,
{
}

/// The connectivity probe: no input, no side effect, no failure path —
/// always the same fixed string.
pub fn test_connection() -> (r: String)
    ensures
        r@ == "Tauri fungerer!"@,
{
    String::from_str("Tauri fungerer!")
}

/// Whether `status` counts as success (any 2xx code).
pub fn is_success_status(status: u16) -> (r: bool)
    ensures
        r == spec_is_success_status(status),
{
    200 <= status && status < 300
}

/// The outcome of one locality fetch, decided from what the transport
/// reported: the raw payload on a success-status response whose body was
/// read, and otherwise a message naming the stage that failed, exactly as
/// `spec_outcome` says.
pub fn fetch_outcome(event: TransportEvent) -> (r: Result<String, String>)
    ensures
        outcome_view(r) == spec_outcome(event),
        r is Ok <==> spec_outcome_is_success(event),
{
    match event {
        TransportEvent::ClientBuildFailed { cause } => {
            let mut msg = String::from_str("Kunne ikke opprette HTTP-klient: ");
            msg.append(cause.as_str());
            Err(msg)
        },
        TransportEvent::SendFailed { cause } => {
            let mut msg = String::from_str("Nettverksfeil: ");
            msg.append(cause.as_str());
            Err(msg)
        },
        TransportEvent::Responded { status, body } => {
            if !is_success_status(status) {
                let body_text = match body {
                    Ok(text) => text,
                    Err(_) => String::new(),
                };
                let mut msg = String::from_str("HTTP-feil ");
                let code = crate::digits::decimal_string(status);
                msg.append(code.as_str());
                msg.append(": ");
                msg.append(body_text.as_str());
                Err(msg)
            } else {
                match body {
                    Ok(text) => Ok(text),
                    Err(cause) => {
                        let mut msg = String::from_str("Kunne ikke lese respons: ");
                        msg.append(cause.as_str());
                        Err(msg)
                    },
                }
            }
        },
    }
}

} // verus!
