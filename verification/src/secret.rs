//! A wrapper for password values that keeps the inner string private.
use vstd::prelude::*;

verus! {

/// Wrapper for password values that keeps the inner string private. It has
/// no `Debug` impl that would print the value; `redacted_debug` gives the
/// masked form.
#[derive(Clone, PartialEq, Eq)]
pub struct Secret {
    secret: String,
}

/// A password: a secret value.
pub type Password = Secret;

impl Secret {
    /// The wrapped value.
    pub closed spec fn value(&self) -> Seq<char> {
        self.secret@
    }

    /// Creates a new password wrapper from a string.
    pub fn new(secret: &str) -> (r: Self)
        ensures
            r.value() == secret@,
    {
        Secret { secret: secret.to_owned() }
    }

    /// Returns the inner secret as a string slice.
    pub fn secret(&self) -> (r: &str)
        ensures
            r@ == self.value(),
    {
        self.secret.as_str()
    }

    /// Consumes the wrapper and returns the secret string.
    pub fn into_secret(self) -> (r: String)
        ensures
            r@ == self.value(),
    {
        self.secret
    }

    /// The debug form of the wrapper, with the value masked.
    pub fn redacted_debug(&self) -> (r: String)
        ensures
            r@ == "Secret { secret: \"***\" }"@,
    {
        String::from_str("Secret { secret: \"***\" }")
    }
}

impl From<String> for Secret {
    fn from(secret: String) -> (r: Self)
        ensures
            r.value() == secret@,
    {
        Secret { secret }
    }
}

impl vstd::std_specs::convert::FromSpecImpl<String> for Secret {
    open spec fn obeys_from_spec() -> bool {
        false
    }

    open spec fn from_spec(v: String) -> Self {
        choose|s: Secret| s.value() == v@
    }
}

impl From<&str> for Secret {
    fn from(secret: &str) -> (r: Self)
        ensures
            r.value() == secret@,
    {
        Secret::new(secret)
    }
}

impl vstd::std_specs::convert::FromSpecImpl<&str> for Secret {
    open spec fn obeys_from_spec() -> bool {
        false
    }

    open spec fn from_spec(v: &str) -> Self {
        choose|s: Secret| s.value() == v@
    }
}

} // verus!
