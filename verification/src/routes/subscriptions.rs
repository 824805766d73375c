//! A request to subscribe: whether it is accepted, and how it is answered.

use crate::domain::subscriber_email::valid_email;
use crate::domain::subscriber_name::grapheme_count;
use crate::domain::subscriber_name::name_defect;
use crate::domain::subscriber_name::valid_name;
use crate::domain::validation::Defect;
use crate::domain::validation::ValidationError;
use crate::domain::NewSubscriber;
use vstd::prelude::*;

verus! {

/// The fields of the form, as they came.
pub struct FormData {
    pub name: String,
    pub email: String,
}

/// How a request to subscribe ended.
#[derive(Clone, Copy, Debug, PartialEq, Eq, Structural)]
pub enum Outcome {
    /// A field of the form was refused; nothing was stored.
    Refused,
    /// The subscriber was stored.
    Stored,
    /// The form was fine, but storing the subscriber failed.
    StorageFailed,
}

/// The HTTP status that answers a request that ended in `outcome`: 400 for
/// a refused form, 200 for a stored subscriber, 500 for a failure to store.
pub open spec fn status_of(outcome: Outcome) -> u16 {
    match outcome {
        Outcome::Refused => 400,
        Outcome::Stored => 200,
        Outcome::StorageFailed => 500,
    }
}

/// Whether the form is accepted: whether both of its fields are valid.
pub open spec fn acceptable(name: Seq<char>, email: Seq<char>) -> bool {
    valid_name(name) && valid_email(email)
}

/// Accepts the form or refuses it. An accepted form becomes a subscriber
/// with the same name and address; nothing but such a subscriber may be
/// handed on to be stored. A refused form comes back as the error of the
/// first field that is refused, the name before the address.
pub fn screen(form: FormData) -> (result: Result<NewSubscriber, ValidationError>)
    ensures
        result is Ok <==> acceptable(form.name@, form.email@),
        match result {
            Ok(subscriber) => subscriber.name@ == form.name@ && subscriber.email@ == form.email@,
            Err(error) => if !valid_name(form.name@) {
                error.input@ == form.name@ && name_defect(
                    form.name@,
                    grapheme_count(form.name@),
                ) == Some(error.defect)
            } else {
                error.input@ == form.email@ && error.defect == Defect::MalformedEmail
            },
        },
{
    NewSubscriber::parse(form.name, form.email)
}

/// How the request ended, given whether storing the accepted subscriber
/// worked.
pub fn after_storing(stored: bool) -> (outcome: Outcome)
    ensures
        outcome == (if stored {
            Outcome::Stored
        } else {
            Outcome::StorageFailed
        }),
{
    if stored {
        Outcome::Stored
    } else {
        Outcome::StorageFailed
    }
}

/// The HTTP status that answers a request that ended in `outcome`.
pub fn status(outcome: Outcome) -> (code: u16)
    ensures
        code == status_of(outcome),
{
    match outcome {
        Outcome::Refused => 400,
        Outcome::Stored => 200,
        Outcome::StorageFailed => 500,
    }
}

} // verus!
