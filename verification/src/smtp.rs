use vstd::prelude::*;

use crate::errors::Error;
use crate::strings::{join_lines, joined_lines};

verus! {

/// The server's final reply to a submitted transaction: its three-digit
/// status code and its reply text, line by line.
pub struct SmtpReply {
    pub code: u16,
    pub lines: Vec<String>,
}

/// A 2xx final reply means the server accepted the message.
pub open spec fn is_positive(code: u16) -> bool {
    200 <= code < 300
}

/// Interprets the server's final reply: success exactly on a 2xx code; any
/// other code is a rejection carrying the reply's text lines, joined with
/// newlines, so the operator sees the server's exact reason.
pub fn check_response(reply: &SmtpReply) -> (r: Result<(), Error>)
    ensures
        r is Ok <==> is_positive(reply.code),
        !is_positive(reply.code) ==> (r->Err_0 matches Error::SendRejected { reply: t } && t@
            == joined_lines(reply.lines.deep_view())),
{
    if 200 <= reply.code && reply.code < 300 {
        Ok(())
    } else {
        Err(Error::SendRejected { reply: join_lines(&reply.lines) })
    }
}

/// How one SMTP submission attempt ended, as the transport reports it.
pub enum SendOutcome {
    /// The relay could not be reached, or refused the TLS upgrade.
    ConnectionFailed { detail: String },
    /// The session failed at the transport level after it was established.
    TransportFailed { detail: String },
    /// The server issued a final reply to the transaction.
    Replied { reply: SmtpReply },
}

/// Turns a submission outcome into the send stage's result: success exactly
/// on a positive server reply; a connection failure, a transport failure and
/// a server rejection stay distinguishable.
pub fn interpret_send(outcome: SendOutcome) -> (r: Result<(), Error>)
    ensures
        r is Ok <==> (outcome matches SendOutcome::Replied { reply } && is_positive(
            reply.code,
        )),
        outcome matches SendOutcome::ConnectionFailed { detail } ==> (
        r->Err_0 matches Error::ConnectionError { detail: d } && d@ == detail@),
        outcome matches SendOutcome::TransportFailed { detail } ==> (
        r->Err_0 matches Error::SendError { detail: d } && d@ == detail@),
        outcome matches SendOutcome::Replied { reply } ==> (!is_positive(reply.code) ==> (
        r->Err_0 matches Error::SendRejected { reply: t } && t@ == joined_lines(
            reply.lines.deep_view(),
        ))),
{
    match outcome {
        SendOutcome::ConnectionFailed { detail } => Err(Error::ConnectionError { detail }),
        SendOutcome::TransportFailed { detail } => Err(Error::SendError { detail }),
        SendOutcome::Replied { reply } => check_response(&reply),
    }
}

} // verus!
