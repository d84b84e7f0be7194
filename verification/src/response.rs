//! Reading the service's answer: which body a status calls for, and what
//! the caller gets for each outcome of the exchange.

use crate::options::Options;
use crate::query::{query_pairs, query_text};
use vstd::prelude::*;

verus! {

/// The status that alone counts as success.
pub const STATUS_OK: u16 = 200;

/// The shape in which a response body is to be decoded.
#[derive(Debug, Clone, Copy, PartialEq, Eq, Structural)]
pub enum BodyShape {
    /// A sequence of file records.
    Records,
    /// An error payload: an object with a message.
    ErrorPayload,
}

/// What the service reports when it fails a request.
#[derive(Debug, PartialEq, Eq)]
pub struct ErrorPayload {
    pub message: String,
}

/// What decoding a response body gave.
#[derive(Debug, PartialEq, Eq)]
pub enum Decoded<R> {
    /// The body held a sequence of file records.
    Records(Vec<R>),
    /// The body held an error payload.
    ErrorPayload(ErrorPayload),
    /// The body did not have the shape asked for.
    Malformed,
}

/// How the one exchange with the service ended.
#[derive(Debug, PartialEq, Eq)]
pub enum Exchange<R> {
    /// No response came: the failure lies in the transport.
    Unreachable,
    /// A response came, with this status and this body.
    Answered { status: u16, body: Decoded<R> },
}

/// Why listing files failed.
#[derive(Debug, PartialEq, Eq)]
pub enum ListError {
    /// No response was received.
    Transport,
    /// The service answered with a status other than 200 and this message.
    ServerReported(String),
    /// The body did not have the shape that its status calls for.
    Decode,
}

/// The shape that the body of a response with `status` is decoded in:
/// records for status 200 and for no other, the error payload for all
/// the rest, other statuses of the 2xx range included.
pub open spec fn expected_shape(status: u16) -> BodyShape {
    if status == STATUS_OK {
        BodyShape::Records
    } else {
        BodyShape::ErrorPayload
    }
}

/// What the caller gets for an exchange: the records of a 200 response
/// whose body held records, the service's message for any other status
/// whose body held an error payload, a decode error where the body did
/// not have the shape of its status, a transport error where no response
/// came.
pub open spec fn outcome<R>(exchange: Exchange<R>) -> Result<Vec<R>, ListError> {
    match exchange {
        Exchange::Unreachable => Err(ListError::Transport),
        Exchange::Answered { status, body } => match body {
            Decoded::Records(records) => if status == STATUS_OK {
                Ok(records)
            } else {
                Err(ListError::Decode)
            },
            Decoded::ErrorPayload(payload) => if status == STATUS_OK {
                Err(ListError::Decode)
            } else {
                Err(ListError::ServerReported(payload.message))
            },
            Decoded::Malformed => Err(ListError::Decode),
        },
    }
}

/// Tells in which shape to decode the body of a response with `status`.
pub fn expected_body(status: u16) -> (shape: BodyShape)
    ensures
        shape == expected_shape(status),
{
    if status == STATUS_OK {
        BodyShape::Records
    } else {
        BodyShape::ErrorPayload
    }
}

/// Turns the end of the exchange into the caller's result.
pub fn conclude<R>(exchange: Exchange<R>) -> (result: Result<Vec<R>, ListError>)
    ensures
        result == outcome(exchange),
{
    match exchange {
        Exchange::Unreachable => Err(ListError::Transport),
        Exchange::Answered { status, body } => match body {
            Decoded::Records(records) => if status == STATUS_OK {
                Ok(records)
            } else {
                Err(ListError::Decode)
            },
            Decoded::ErrorPayload(payload) => if status == STATUS_OK {
                Err(ListError::Decode)
            } else {
                Err(ListError::ServerReported(payload.message))
            },
            Decoded::Malformed => Err(ListError::Decode),
        },
    }
}

/// The shape that a decoded body has; none for a body that had none.
pub open spec fn shape_of<R>(body: Decoded<R>) -> Option<BodyShape> {
    match body {
        Decoded::Records(_) => Some(BodyShape::Records),
        Decoded::ErrorPayload(_) => Some(BodyShape::ErrorPayload),
        Decoded::Malformed => None,
    }
}

/// Success is owed to status 200 alone: an exchange gives records if and
/// only if a response came, its status is exactly 200 and its body held
/// records, and then it gives those records. No other status of the 2xx
/// range succeeds.
pub proof fn lemma_only_status_200_succeeds<R>(exchange: Exchange<R>)
    ensures
        outcome(exchange) is Ok <==> (exchange matches Exchange::Answered { status, body }
            && status == 200 && body is Records),
        outcome(exchange) matches Ok(records) ==> exchange matches Exchange::Answered {
            body: Decoded::Records(held),
            ..
        } && held == records,
{
}

/// The service's message reaches the caller word for word: an exchange
/// gives a server-reported error if and only if a response came with a
/// status other than 200 and an error payload for a body, and the error
/// then carries that payload's message.
pub proof fn lemma_server_message_is_passed_on<R>(exchange: Exchange<R>)
    ensures
        outcome(exchange) matches Err(ListError::ServerReported(_)) <==> (
        exchange matches Exchange::Answered { status, body } && status != 200
            && body is ErrorPayload),
        outcome(exchange) matches Err(ListError::ServerReported(message))
            ==> exchange matches Exchange::Answered { body: Decoded::ErrorPayload(payload), .. }
            && payload.message == message,
{
}

/// A decode error stands for a body without the shape of its status, and
/// a transport error for a response that never came.
pub proof fn lemma_failures_are_told_apart<R>(exchange: Exchange<R>)
    ensures
        outcome(exchange) == Err::<Vec<R>, ListError>(ListError::Transport)
            <==> exchange is Unreachable,
        outcome(exchange) == Err::<Vec<R>, ListError>(ListError::Decode) <==> (
        exchange matches Exchange::Answered { status, body } && shape_of(body) != Some(
            expected_shape(status),
        )),
{
}

/// A call repeated with the same filters against a service that answers
/// the same way asks the same query and gives the same result: nothing of
/// an earlier call is kept.
pub proof fn lemma_repeated_call_is_identical<R>(
    first: Options,
    second: Options,
    first_answer: Exchange<R>,
    second_answer: Exchange<R>,
)
    requires
        first@ == second@,
        first_answer == second_answer,
    ensures
        query_pairs(first@) == query_pairs(second@),
        query_text(first@) == query_text(second@),
        outcome(first_answer) == outcome(second_answer),
{
}

} // verus!
