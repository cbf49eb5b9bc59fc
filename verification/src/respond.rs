//! What a request is answered with.
//!
//! The web layer asks here before it touches the store and after the store
//! has answered; the status of the response is decided here and nowhere
//! else.

use vstd::prelude::*;
use crate::access::{authenticate, authenticated};
use crate::database::Database;

verus! {

/// The status of a response.
#[derive(Clone, Copy, Debug, PartialEq, Eq, Structural)]
pub enum Status {
    Success,
    BadRequest,
    Unauthorized,
    InternalServerError,
}

impl Status {
    /// The status as a number.
    pub open spec fn number(self) -> u16 {
        match self {
            Status::Success => 200,
            Status::BadRequest => 400,
            Status::Unauthorized => 401,
            Status::InternalServerError => 500,
        }
    }

    /// The status as a number.
    pub fn code(self) -> (r: u16)
        ensures
            r == self.number(),
    {
        match self {
            Status::Success => 200,
            Status::BadRequest => 400,
            Status::Unauthorized => 401,
            Status::InternalServerError => 500,
        }
    }
}

/// Whether a request may go on to the store.
#[derive(Clone, Copy, Debug, PartialEq, Eq, Structural)]
pub enum Admission {
    /// It may.
    Granted,
    /// It may not, and is answered with this status and without content.
    Refused(Status),
}

/// The admission of a request: without a service it is refused as an
/// internal error; one that is not allowed is refused with `denial`.
pub open spec fn admission(connected: bool, allowed: bool, denial: Status) -> Admission {
    if !connected {
        Admission::Refused(Status::InternalServerError)
    } else if !allowed {
        Admission::Refused(denial)
    } else {
        Admission::Granted
    }
}

/// The secret of the service, where there is one.
pub open spec fn secret_of(conn: Option<&Database>) -> Seq<u8> {
    match conn {
        Some(conn) => conn.secret(),
        None => Seq::empty(),
    }
}

/// Admits a request that anyone may make: it needs the service, and
/// nothing else.
pub fn admit_anyone(conn: Option<&Database>) -> (r: Admission)
    ensures
        r == admission(conn is Some, true, Status::Unauthorized),
{
    match conn {
        Some(_) => Admission::Granted,
        None => Admission::Refused(Status::InternalServerError),
    }
}

/// Admits a request that reads the data of the principal `id` in the role
/// `isdoctor`: it needs the service and a token of exactly that principal,
/// and is refused as unauthorized without the token.
pub fn admit_reader(conn: Option<&Database>, authorization: Option<&str>, id: i64, isdoctor: bool) -> (r: Admission)
    ensures
        r == admission(
            conn is Some,
            authenticated(
                secret_of(conn),
                match authorization {
                    Some(raw) => Some(raw@),
                    None => None,
                },
                id,
                isdoctor,
            ),
            Status::Unauthorized,
        ),
{
    match conn {
        Some(conn) => {
            if authenticate(conn, authorization, &id, isdoctor) {
                Admission::Granted
            } else {
                Admission::Refused(Status::Unauthorized)
            }
        },
        None => Admission::Refused(Status::InternalServerError),
    }
}

/// Admits a request that books for the patient `patient_id`: it needs the
/// service and a token of exactly that patient, and is refused as a bad
/// request without the token.
pub fn admit_booking(conn: Option<&Database>, authorization: Option<&str>, patient_id: i64) -> (r: Admission)
    ensures
        r == admission(
            conn is Some,
            authenticated(
                secret_of(conn),
                match authorization {
                    Some(raw) => Some(raw@),
                    None => None,
                },
                patient_id,
                false,
            ),
            Status::BadRequest,
        ),
{
    match conn {
        Some(conn) => {
            if authenticate(conn, authorization, &patient_id, false) {
                Admission::Granted
            } else {
                Admission::Refused(Status::BadRequest)
            }
        },
        None => Admission::Refused(Status::InternalServerError),
    }
}

/// Admits the second write of an enrolment, which runs only where the
/// first was accepted.
pub fn admit_second_write(first_accepted: bool) -> (r: Admission)
    ensures
        r == admission(true, first_accepted, Status::BadRequest),
{
    if first_accepted {
        Admission::Granted
    } else {
        Admission::Refused(Status::BadRequest)
    }
}

/// The status of a response, given whether the request was admitted and,
/// if it was, whether the store produced what was asked for: rows for a
/// listing, an accepted write, a token for a login. An admitted request
/// that produced nothing is a bad request.
pub open spec fn outcome(admission: Admission, produced: bool) -> Status {
    match admission {
        Admission::Refused(status) => status,
        Admission::Granted => if produced {
            Status::Success
        } else {
            Status::BadRequest
        },
    }
}

/// The status of a listing with `rows` rows; a refused request has none.
pub fn listing_status(admission: Admission, rows: usize) -> (r: Status)
    ensures
        r == outcome(admission, rows > 0),
{
    match admission {
        Admission::Refused(status) => status,
        Admission::Granted => if rows > 0 {
            Status::Success
        } else {
            Status::BadRequest
        },
    }
}

/// The status of a write that the store accepted or rejected.
pub fn write_status(admission: Admission, accepted: bool) -> (r: Status)
    ensures
        r == outcome(admission, accepted),
{
    match admission {
        Admission::Refused(status) => status,
        Admission::Granted => if accepted {
            Status::Success
        } else {
            Status::BadRequest
        },
    }
}

/// The status of a login that gave a token or none.
pub fn login_status(admission: Admission, token: &Option<String>) -> (r: Status)
    ensures
        r == outcome(admission, token is Some),
{
    match admission {
        Admission::Refused(status) => status,
        Admission::Granted => match token {
            Some(_) => Status::Success,
            None => Status::BadRequest,
        },
    }
}

} // verus!
