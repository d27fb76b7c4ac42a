use vstd::prelude::*;

use crate::models::CustomError;
use crate::types::CustomResponse;

verus! {

/// How a response's status code is classed: the service's own failure code,
/// any other non-success code, or success.
#[derive(Clone, Copy, Debug, PartialEq, Eq, Structural)]
pub enum StatusClass {
    ServerFailure,
    OtherFailure,
    Success,
}

pub fn classify_status(status: u16) -> (r: StatusClass)
    ensures
        status == 500 ==> r == StatusClass::ServerFailure,
        status != 500 && status != 200 ==> r == StatusClass::OtherFailure,
        status == 200 ==> r == StatusClass::Success,
{
    if status == 500 {
        StatusClass::ServerFailure
    } else if status != 200 {
        StatusClass::OtherFailure
    } else {
        StatusClass::Success
    }
}

/// The error reported when the service itself failed: an empty payload and
/// the given message, with no user-facing message.
pub fn internal_error(message: String) -> (e: CustomError<String>)
    ensures
        match e.data {
            Some(d) => d@ == Seq::<char>::empty(),
            None => false,
        },
        e.message == Some(message),
        e.show_message is None,
{
    CustomError::new(Some(String::new()), Some(message), None)
}

/// Carries a failure envelope's payload, machine message and user-facing
/// message into the error exactly as they stand.
pub fn envelope_error(body: CustomResponse<String>) -> (e: CustomError<String>)
    ensures
        e.data == body.data,
        e.message == body.message,
        e.show_message == body.show_message,
{
    CustomError::new(body.data, body.message, body.show_message)
}

/// The payload of a success envelope; an envelope that carries none yields
/// an error with the given message instead.
pub fn envelope_data<T>(body: CustomResponse<T>, message: String) -> (r: Result<
    T,
    CustomError<String>,
>)
    ensures
        match body.data {
            Some(d) => r == Ok::<T, CustomError<String>>(d),
            None => match r {
                Ok(_) => false,
                Err(e) => e.data is None && e.message == Some(message) && e.show_message is None,
            },
        },
{
    match body.data {
        Some(d) => Ok(d),
        None => Err(CustomError::new(None, Some(message), None)),
    }
}

} // verus!
