//! Why an input was refused.

use vstd::prelude::*;

verus! {

/// What is wrong with a refused input.
#[derive(Clone, Copy, Debug, PartialEq, Eq, Structural)]
pub enum Defect {
    /// The name is empty or holds nothing but white space.
    BlankName,
    /// The name has more user-perceived characters than allowed.
    NameTooLong,
    /// The name holds a character that no name may hold.
    ForbiddenCharacter,
    /// The text is not an e-mail address.
    MalformedEmail,
}

/// A refused input, kept for diagnostics, and the reason it was refused.
#[derive(Debug)]
pub struct ValidationError {
    pub input: String,
    pub defect: Defect,
}

impl Defect {
    /// Whether the defect is one of a subscriber's name.
    pub open spec fn of_name(self) -> bool {
        self != Defect::MalformedEmail
    }
}

/// The text of the message for an input refused for `defect`.
pub open spec fn message_text(input: Seq<char>, defect: Defect) -> Seq<char> {
    if defect.of_name() {
        input + " is not a valid subscriber name."@
    } else {
        input + " is not a valid subscriber email."@
    }
}

impl ValidationError {
    /// A sentence that names the refused input.
    pub fn message(&self) -> (text: String)
        ensures
            text@ == message_text(self.input@, self.defect),
    {
        let mut text = self.input.clone();
        match self.defect {
            Defect::MalformedEmail => text.append(" is not a valid subscriber email."),
            _ => text.append(" is not a valid subscriber name."),
        }
        text
    }
}

} // verus!
