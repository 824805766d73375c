//! A credential that is kept from logs and debug output until the one place
//! that needs its text.

use secrecy::ExposeSecret;
use secrecy::SecretString;
use vstd::prelude::*;

verus! {

/// A secret text, held in a `secrecy::SecretString`.
///
/// The verifier does not look inside: all it knows of a secret is the text
/// named by [`secret_text`], which the two trusted functions below relate to
/// what `secrecy` is given and gives back.
#[verifier::external_body]
pub struct Secret {
    inner: SecretString,
}

/// The text that a secret holds.
pub uninterp spec fn secret_text(secret: Secret) -> Seq<char>;

impl View for Secret {
    type V = Seq<char>;

    open spec fn view(&self) -> Seq<char> {
        secret_text(*self)
    }
}

impl Secret {
    /// Trusted: `SecretString::from(String)` boxes the text as it is, so the
    /// secret holds exactly the characters of `text`.
    #[verifier::external_body]
    fn seal(text: String) -> (secret: Secret)
        ensures
            secret_text(secret) == text@,
    {
        Secret { inner: SecretString::from(text) }
    }

    /// Trusted: `ExposeSecret::expose_secret` hands out a reference to the
    /// boxed text, unchanged.
    #[verifier::external_body]
    fn exposed(&self) -> (text: &str)
        ensures
            text@ == secret_text(*self),
    {
        self.inner.expose_secret()
    }

    /// Wraps `text` as a secret.
    pub fn new(text: String) -> (secret: Secret)
        ensures
            secret@ == text@,
    {
        Secret::seal(text)
    }

    /// The text of the secret. Call this only where the text is consumed.
    pub fn expose_secret(&self) -> (text: &str)
        ensures
            text@ == self@,
    {
        self.exposed()
    }
}

} // verus!
