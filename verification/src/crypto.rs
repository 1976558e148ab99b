//! Credential handling.
//!
//! A [`SensitiveString`] holds a credential (an API key or secret).  The raw
//! value is reachable only through the explicit [`SensitiveString::expose`]
//! accessor; the printable form is always the fixed marker `"REDACTED"`.
//! Equality operates on the real content, so two wrappers built from the same
//! source compare equal even though neither will ever print its content.

use vstd::prelude::*;

verus! {

use vstd::std_specs::cmp::PartialEqSpec;

/// Opaque holder for a credential string.
#[derive(Clone)]
pub struct SensitiveString {
    value: String,
}

impl View for SensitiveString {
    type V = Seq<char>;

    closed spec fn view(&self) -> Seq<char> {
        self.value@
    }
}

impl SensitiveString {
    /// Wraps a credential.
    pub fn new(value: String) -> (r: Self)
        ensures
            r@ == value@,
    {
        SensitiveString { value }
    }

    /// The raw credential, for building signed or authenticated requests.
    pub fn expose(&self) -> (r: &str)
        ensures
            r@ == self@,
    {
        self.value.as_str()
    }

    /// The only printable form of the value: a fixed marker that does not
    /// depend on the wrapped content in any way.
    pub fn redacted(&self) -> (r: &'static str)
        ensures
            r@ == "REDACTED"@,
    {
        "REDACTED"
    }
}

impl From<String> for SensitiveString {
    fn from(value: String) -> (r: Self) {
        SensitiveString { value }
    }
}

impl vstd::std_specs::convert::FromSpecImpl<String> for SensitiveString {
    open spec fn obeys_from_spec() -> bool {
        true
    }

    closed spec fn from_spec(value: String) -> Self {
        SensitiveString { value }
    }
}

impl PartialEq for SensitiveString {
    fn eq(&self, other: &Self) -> (r: bool) {
        self.value == other.value
    }
}

impl vstd::std_specs::cmp::PartialEqSpecImpl for SensitiveString {
    open spec fn obeys_eq_spec() -> bool {
        true
    }

    open spec fn eq_spec(&self, other: &Self) -> bool {
        self@ == other@
    }
}

/// Two wrappers are equal exactly when their wrapped contents are: only
/// the printable representation is redacted, never the value that equality,
/// hashing or signing uses.
pub proof fn lemma_sensitive_string_eq_is_content_eq(a: SensitiveString, b: SensitiveString)
    ensures
        a.eq_spec(&b) <==> a@ == b@,
{
}

} // verus!
