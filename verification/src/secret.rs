//! Secret container: a write-once wrapper for sensitive values (card numbers,
//! CVCs, API keys). The wrapped value can only be read back through an
//! explicit `expose` call; any textual rendering yields a fixed redaction
//! marker that is independent of the wrapped value.

use vstd::prelude::*;
use vstd::string::StringExecFns;

verus! {

/// Fixed marker rendered in place of any wrapped secret value.
pub const REDACTION_MARKER: &'static str = "*** redacted ***";

/// The sequence of characters every masked rendering consists of.
pub open spec fn spec_redaction_marker() -> Seq<char> {
    REDACTION_MARKER@
}

/// Wrapper that takes ownership of a sensitive value at construction and
/// never renders it; only `expose` and `into_inner` hand the value back.
pub struct Secret<T> {
    inner: T,
}

impl<T: DeepView> DeepView for Secret<T> {
    type V = T::V;

    closed spec fn deep_view(&self) -> T::V {
        self.inner.deep_view()
    }
}

impl<T: DeepView> Secret<T> {
    /// Wraps a raw sensitive value; the only way back out is `expose`.
    pub fn new(value: T) -> (s: Secret<T>)
        ensures
            s.deep_view() == value.deep_view(),
    {
        Secret { inner: value }
    }

    /// Deliberate read access to the wrapped value.
    pub fn expose(&self) -> (r: &T)
        ensures
            r.deep_view() == self.deep_view(),
    {
        &self.inner
    }

    /// Consumes the container and returns the wrapped value.
    pub fn into_inner(self) -> (r: T)
        ensures
            r.deep_view() == self.deep_view(),
    {
        self.inner
    }

    /// The characters `masked` renders for a secret: the fixed marker,
    /// whatever the wrapped value is.
    pub open spec fn spec_masked_rendering(&self) -> Seq<char> {
        spec_redaction_marker()
    }

    /// Textual rendering for logs and diagnostics: always the fixed
    /// redaction marker, never the wrapped value.
    pub fn masked(&self) -> (r: String)
        ensures
            r@ == self.spec_masked_rendering(),
    {
        String::from_str(REDACTION_MARKER)
    }
}

/// Whether `needle` occurs inside `hay` as a contiguous substring.
pub open spec fn seq_contains_sub(hay: Seq<char>, needle: Seq<char>) -> bool {
    exists|i: int|
        0 <= i && i + needle.len() <= hay.len() && #[trigger] hay.subrange(i, i + needle.len())
            == needle
}

/// Law: masked renderings carry no information about the wrapped value —
/// whatever two secrets hold, their renderings are the same sequence.
pub proof fn lemma_masked_rendering_uniform<T: DeepView>(a: Secret<T>, b: Secret<T>)
    ensures
        a.spec_masked_rendering() == b.spec_masked_rendering(),
{
}

/// Law: a masked rendering never contains the wrapped raw value as a
/// substring, for every value that is not itself a fragment of the fixed
/// redaction marker.
pub proof fn lemma_masked_never_contains_value<T: DeepView>(s: Secret<T>, value: Seq<char>)
    requires
        !seq_contains_sub(spec_redaction_marker(), value),
    ensures
        !seq_contains_sub(s.spec_masked_rendering(), value),
{
}

} // verus!
