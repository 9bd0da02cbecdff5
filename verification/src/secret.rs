use vstd::prelude::*;
use secrecy::ExposeSecret;

verus! {

/// A string kept in a `secrecy::SecretString`; Verus sees it only through the functions below.
#[verifier::external_body]
#[derive(Debug)]
pub struct SecretText {
    inner: secrecy::SecretString,
}

/// The characters that a secret string holds.
pub uninterp spec fn secret_chars(secret: SecretText) -> Seq<char>;

/// Wraps `<SecretString as From<String>>::from`, which boxes the string's characters unchanged.
#[verifier::external_body]
pub(crate) fn secret_from_string(value: String) -> (secret: SecretText)
    ensures
        secret_chars(secret) == value@,
{
    SecretText { inner: secrecy::SecretString::from(value) }
}

/// Wraps `ExposeSecret::expose_secret` on a `SecretString`, which hands out the boxed
/// characters.
#[verifier::external_body]
pub(crate) fn secret_expose(secret: &SecretText) -> (text: &str)
    ensures
        text@ == secret_chars(*secret),
{
    secret.inner.expose_secret()
}

/// Wraps `<SecretString as Clone>::clone`, which copies the boxed characters.
#[verifier::external_body]
pub(crate) fn secret_clone(secret: &SecretText) -> (copy: SecretText)
    ensures
        secret_chars(copy) == secret_chars(*secret),
{
    SecretText { inner: secret.inner.clone() }
}

}
