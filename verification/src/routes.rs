//! The decisions of the subscription endpoint: which status answers a
//! request, given what validation and the database reported.

use vstd::prelude::*;

use crate::domain::{parse_outcome, RawSubscriber, Subscriber};

verus! {

/// The statuses the subscription endpoint answers with.
#[derive(Debug, Clone, Copy, PartialEq, Eq, Structural)]
pub enum Status {
    /// 200: the subscriber was stored.
    Success,
    /// 400: the submitted fields did not validate.
    BadRequest,
    /// 500: storing the subscriber failed.
    InternalServerError,
}

impl Status {
    /// The HTTP status code.
    pub fn code(self) -> (c: u16)
        ensures
            c == status_code(self),
            self == Status::Success ==> c == 200,
            self == Status::BadRequest ==> c == 400,
            self == Status::InternalServerError ==> c == 500,
    {
        match self {
            Status::Success => 200,
            Status::BadRequest => 400,
            Status::InternalServerError => 500,
        }
    }
}

pub open spec fn status_code(s: Status) -> u16 {
    match s {
        Status::Success => 200,
        Status::BadRequest => 400,
        Status::InternalServerError => 500,
    }
}

/// Why a subscription was refused, and the status that answers it.
pub struct Refusal {
    pub status: Status,
    pub reason: String,
}

/// First step of a subscription: validate the submitted fields. A subscriber
/// to store comes back exactly when the name is valid; otherwise the answer
/// is `400 Bad Request`, with the name's error as the reason, and nothing is
/// stored.
pub fn admit_subscriber(raw: RawSubscriber) -> (r: Result<Subscriber, Refusal>)
    ensures
        match r {
            Ok(s) => {
                &&& parse_outcome(raw.name@) is Ok
                &&& s.name@ == raw.name@
                &&& s.email@ == raw.email@
            },
            Err(refusal) => {
                &&& parse_outcome(raw.name@) == Err::<Seq<char>, Seq<char>>(refusal.reason@)
                &&& refusal.status == Status::BadRequest
            },
        },
{
    match Subscriber::try_from(raw) {
        Ok(s) => Ok(s),
        Err(reason) => Err(Refusal { status: Status::BadRequest, reason }),
    }
}

/// Last step of a subscription: answer `200 OK` when the row was inserted,
/// `500 Internal Server Error` when the database refused it.
pub fn insertion_response(inserted: bool) -> (r: Result<(), Status>)
    ensures
        inserted <==> r is Ok,
        !inserted ==> r == Err::<(), Status>(Status::InternalServerError),
{
    if inserted {
        Ok(())
    } else {
        Err(Status::InternalServerError)
    }
}

} // verus!
