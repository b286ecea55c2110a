//! A wrapper for sensitive strings (passwords, password hashes).

use vstd::prelude::*;

verus! {

/// A sensitive string. The held value can be read only through an explicit
/// `expose_secret` call, so it cannot stray into logs, error messages or
/// serialized output by accident: the type has no formatting impls at all.
pub struct SecretString {
    value: String,
}

impl View for SecretString {
    type V = Seq<char>;

    closed spec fn view(&self) -> Seq<char> {
        self.value@
    }
}

impl SecretString {
    /// Wrap a sensitive value.
    pub fn new(value: String) -> (s: SecretString)
        ensures
            s@ == value@,
    {
        SecretString { value }
    }

    /// The one auditable point where the wrapped value is read.
    pub fn expose_secret(&self) -> (r: &str)
        ensures
            r@ == self@,
    {
        self.value.as_str()
    }
}

} // verus!
