//! Session tokens that are not to be seen by chance.

use secrecy::{ExposeSecret, SecretString};
use vstd::prelude::*;

verus! {

/// The text of a session token in a `secrecy::SecretString`, which no debug output shows and
/// which is wiped when it is dropped.
#[verifier::external_body]
pub struct SecretToken {
    inner: SecretString,
}

/// The characters that the `SecretString` of a token holds.
pub uninterp spec fn secret_text(secret: SecretToken) -> Seq<char>;

/// Calls `secrecy::Secret::new`, which keeps the text that it is given.
#[verifier::external_body]
fn wrap(text: String) -> (secret: SecretToken)
    ensures
        secret_text(secret) == text@,
{
    SecretToken { inner: SecretString::new(text) }
}

/// Calls `secrecy::ExposeSecret::expose_secret`, which gives the text that is kept.
#[verifier::external_body]
fn expose_secret(secret: &SecretToken) -> (text: String)
    ensures
        text@ == secret_text(*secret),
{
    secret.inner.expose_secret().clone()
}

impl SecretToken {
    /// Hides the text of a token.
    pub fn new(text: String) -> (secret: SecretToken)
        ensures
            secret_text(secret) == text@,
    {
        wrap(text)
    }

    /// Shows the text of the token.
    pub fn expose(&self) -> (text: String)
        ensures
            text@ == secret_text(*self),
    {
        expose_secret(self)
    }
}

/// A token is shown as it was hidden, whatever its text.
pub proof fn law_tokens_are_shown_as_hidden(text: String, secret: SecretToken, shown: String)
    requires
        call_ensures(SecretToken::new, (text,), secret),
        call_ensures(SecretToken::expose, (&secret,), shown),
    ensures
        shown@ == text@,
{
}

} // verus!
