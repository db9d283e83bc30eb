//! The response interpreter: what a response means for a declared result.
//!
//! | result kind | 404 as absent | status 404 | status 2xx | other status |
//! |---|---|---|---|---|
//! | unit | no | error | value | error |
//! | unit | yes | absent | value | error |
//! | raw response | no | value | value | value |
//! | raw response | yes | absent | value | value |
//! | JSON | no | error | value | error |
//! | JSON | yes | absent | value | error |
//!
//! A raw response is handed back whatever its status: the caller inspects it.
//! Every error carries the body of the response.

use vstd::prelude::*;
use crate::error::Error;
use crate::response::Response;
use crate::text::{decimal_of, decimal_string};
use crate::types::ReturnTypeKind;

verus! {

/// What the status of a response means for an endpoint.
#[derive(Debug, Clone, Copy, PartialEq, Eq, Structural)]
pub enum Verdict {
    /// The call succeeded and there is nothing to return.
    Absent,
    /// The call succeeded with a value.
    Value,
    /// The call failed.
    Failure,
}

/// The value of a successful call, before any decoding into the caller's type.
#[derive(Debug)]
pub enum Decoded {
    /// There is no value.
    Unit,
    /// The response as it came.
    Raw(Response<bytes::Bytes>),
    /// The body, which holds the value as a JSON document.
    Json(bytes::Bytes),
}

/// What came back from the transport.
#[derive(Debug)]
pub enum TransportEvent {
    /// A response arrived.
    Responded(Response<bytes::Bytes>),
    /// The transport failed.
    Failed(Error),
    /// The endpoint's timeout elapsed before a response arrived.
    TimedOut,
}

/// The verdict on a status code. A 404 means absence where the endpoint asks
/// for that. Otherwise a raw response is always a value, and any other result
/// is a value on 2xx and a failure on every other status.
pub open spec fn verdict_on(kind: ReturnTypeKind, not_found_as_none: bool, status: u16)
    -> Verdict {
    if not_found_as_none && status == 404 {
        Verdict::Absent
    } else if kind is RawResponse || 200 <= status < 300 {
        Verdict::Value
    } else {
        Verdict::Failure
    }
}

/// The message of the error for a failed status.
pub open spec fn failure_message(status: u16) -> Seq<char> {
    "HTTP error: "@ + decimal_of(status as nat)
}

/// The value that a response holds for a result kind.
pub open spec fn value_of(kind: ReturnTypeKind, response: Response<bytes::Bytes>) -> Decoded {
    match kind {
        ReturnTypeKind::Unit => Decoded::Unit,
        ReturnTypeKind::RawResponse => Decoded::Raw(response),
        ReturnTypeKind::Json => Decoded::Json(response.spec_body()),
    }
}

/// True when `r` is what the interpreter owes for the response.
pub open spec fn interprets(
    r: Result<Option<Decoded>, Error>,
    kind: ReturnTypeKind,
    not_found_as_none: bool,
    response: Response<bytes::Bytes>,
) -> bool {
    match verdict_on(kind, not_found_as_none, response.spec_status()) {
        Verdict::Absent => r matches Ok(None),
        Verdict::Value => r matches Ok(Some(d)) && d == value_of(kind, response),
        Verdict::Failure => r matches Err(Error::Http { status, message, body }) && status
            == response.spec_status() && message@ == failure_message(status) && body == Some(
            response.spec_body(),
        ),
    }
}

/// The verdict on a status code.
pub fn verdict(kind: ReturnTypeKind, not_found_as_none: bool, status: u16) -> (r: Verdict)
    ensures
        r == verdict_on(kind, not_found_as_none, status),
{
    if not_found_as_none && status == 404 {
        Verdict::Absent
    } else {
        match kind {
            ReturnTypeKind::RawResponse => Verdict::Value,
            _ => if 200 <= status && status < 300 {
                Verdict::Value
            } else {
                Verdict::Failure
            },
        }
    }
}

/// Interprets a response for an endpoint's result kind. `Ok(None)` stands for
/// an absent value; an endpoint that does not take 404 for absence never
/// yields it.
pub fn interpret_response(
    kind: ReturnTypeKind,
    not_found_as_none: bool,
    response: Response<bytes::Bytes>,
) -> (r: Result<Option<Decoded>, Error>)
    ensures
        interprets(r, kind, not_found_as_none, response),
{
    let status = response.status();
    match verdict(kind, not_found_as_none, status) {
        Verdict::Absent => Ok(None),
        Verdict::Value => match kind {
            ReturnTypeKind::Unit => Ok(Some(Decoded::Unit)),
            ReturnTypeKind::RawResponse => Ok(Some(Decoded::Raw(response))),
            ReturnTypeKind::Json => Ok(Some(Decoded::Json(response.into_body()))),
        },
        Verdict::Failure => {
            let mut message = "HTTP error: ".to_owned();
            message.append(decimal_string(status as u64).as_str());
            Err(Error::Http { status, message, body: Some(response.into_body()) })
        },
    }
}

/// Concludes a call from what the transport reported: a timeout becomes the
/// timeout error, a transport failure is passed on, a response is interpreted.
pub fn conclude(kind: ReturnTypeKind, not_found_as_none: bool, event: TransportEvent) -> (r:
    Result<Option<Decoded>, Error>)
    ensures
        match event {
            TransportEvent::Responded(response) => interprets(
                r,
                kind,
                not_found_as_none,
                response,
            ),
            TransportEvent::Failed(e) => r == Err::<Option<Decoded>, Error>(e),
            TransportEvent::TimedOut => r matches Err(Error::Timeout),
        },
{
    match event {
        TransportEvent::Responded(response) => interpret_response(
            kind,
            not_found_as_none,
            response,
        ),
        TransportEvent::Failed(e) => Err(e),
        TransportEvent::TimedOut => Err(Error::Timeout),
    }
}

/// A raw response is never turned into an error, whatever its status.
pub proof fn lemma_raw_response_never_fails(not_found_as_none: bool, status: u16)
    ensures
        verdict_on(ReturnTypeKind::RawResponse, not_found_as_none, status) != Verdict::Failure,
{
}

/// Absence is reported for status 404 on an endpoint that asks for it, and in
/// no other case.
pub proof fn lemma_absent_only_on_request(
    kind: ReturnTypeKind,
    not_found_as_none: bool,
    status: u16,
)
    ensures
        verdict_on(kind, not_found_as_none, status) == Verdict::Absent <==> (not_found_as_none
            && status == 404),
{
}

/// For a result other than the raw response, a status is a value exactly when
/// it is 2xx, unless it is a 404 that stands for absence.
pub proof fn lemma_status_decides(kind: ReturnTypeKind, not_found_as_none: bool, status: u16)
    requires
        !(kind is RawResponse),
        !(not_found_as_none && status == 404),
    ensures
        verdict_on(kind, not_found_as_none, status) == (if 200 <= status < 300 {
            Verdict::Value
        } else {
            Verdict::Failure
        }),
{
}

} // verus!
