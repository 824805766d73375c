//! The validated values that untrusted input must become before anything
//! else may use it.

pub mod subscriber_email;
pub mod subscriber_name;
pub mod validation;

use crate::domain::subscriber_email::valid_email;
use crate::domain::subscriber_email::SubscriberEmail;
use crate::domain::subscriber_name::grapheme_count;
use crate::domain::subscriber_name::name_defect;
use crate::domain::subscriber_name::valid_name;
use crate::domain::subscriber_name::SubscriberName;
use crate::domain::validation::Defect;
use crate::domain::validation::ValidationError;
use vstd::prelude::*;

verus! {

/// A subscriber who may be stored and notified: both fields have passed
/// validation.
pub struct NewSubscriber {
    pub email: SubscriberEmail,
    pub name: SubscriberName,
}

impl NewSubscriber {
    /// Validates the name, then the address. The error holds the first of
    /// the two that is refused.
    pub fn parse(name: String, email: String) -> (result: Result<NewSubscriber, ValidationError>)
        ensures
            match result {
                Ok(subscriber) => {
                    &&& valid_name(name@)
                    &&& valid_email(email@)
                    &&& subscriber.name@ == name@
                    &&& subscriber.email@ == email@
                },
                Err(error) => if !valid_name(name@) {
                    error.input@ == name@ && name_defect(name@, grapheme_count(name@)) == Some(
                        error.defect,
                    )
                } else {
                    &&& !valid_email(email@)
                    &&& error.input@ == email@
                    &&& error.defect == Defect::MalformedEmail
                },
            },
    {
        let name = match SubscriberName::parse(name) {
            Ok(name) => name,
            Err(error) => {
                return Err(error);
            },
        };
        match SubscriberEmail::parse(email) {
            Ok(email) => Ok(NewSubscriber { email, name }),
            Err(error) => Err(error),
        }
    }
}

} // verus!
