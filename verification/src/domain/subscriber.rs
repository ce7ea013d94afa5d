//! A subscription request, before and after validation.

use vstd::prelude::*;

use super::subscriber_name::{parse_outcome, SubscriberName};

verus! {

/// The fields of a subscription form, as submitted.
pub struct RawSubscriber {
    pub name: String,
    pub email: String,
}

/// A subscriber whose name passed validation.
pub struct Subscriber {
    pub name: SubscriberName,
    pub email: String,
}

impl Subscriber {
    /// Validates the submitted fields: succeeds exactly when the name parses,
    /// and fails with the name's error otherwise.
    pub fn try_from(raw: RawSubscriber) -> (r: Result<Self, String>)
        ensures
            match r {
                Ok(s) => {
                    &&& parse_outcome(raw.name@) == Ok::<Seq<char>, Seq<char>>(raw.name@)
                    &&& s.name@ == raw.name@
                    &&& s.email@ == raw.email@
                },
                Err(e) => parse_outcome(raw.name@) == Err::<Seq<char>, Seq<char>>(e@),
            },
    {
        match SubscriberName::parse(raw.name) {
            Ok(name) => Ok(Subscriber { name, email: raw.email }),
            Err(e) => Err(e),
        }
    }
}

} // verus!
