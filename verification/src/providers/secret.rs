//! API credentials that are never serialized and always redacted when described.

use vstd::prelude::*;

use crate::text::copy_str;

verus! {

/// An API credential supplied by the trusted caller; its description is redacted.
pub struct ProviderCredential {
    value: String,
}

impl ProviderCredential {
    /// The credential's value, visible to the specification only.
    pub closed spec fn secret(&self) -> Seq<char> {
        self.value@
    }

    /// Takes ownership of a credential supplied by the trusted caller.
    pub fn new(value: String) -> (r: Self)
        ensures
            r.secret() == value@,
    {
        ProviderCredential { value }
    }

    /// Whether the caller supplied an empty credential.
    pub fn is_empty(&self) -> (r: bool)
        ensures
            r == (self.secret().len() == 0),
    {
        self.value.as_str().unicode_len() == 0
    }

    /// The credential, only for the transport right before header injection.
    pub fn expose_secret(&self) -> (r: &str)
        ensures
            r@ == self.secret(),
    {
        self.value.as_str()
    }

    /// The description of the credential; it never holds the value.
    pub fn debug_string(&self) -> (r: String)
        ensures
            r@ == "ProviderCredential([REDACTED])"@,
    {
        copy_str("ProviderCredential([REDACTED])")
    }
}

} // verus!
