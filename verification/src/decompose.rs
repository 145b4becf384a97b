//! Canonical Unicode decomposition (NFD), obtained from the
//! unicode-normalization crate.
//!
//! Decomposition itself is a large table-driven Unicode algorithm, so its
//! result is only named here, by the uninterpreted function [`nfd_of`]; the
//! rest of the pipeline is specified and verified in terms of that name.

use crate::greek::is_core_text;
use unicode_normalization::UnicodeNormalization;
use vstd::prelude::*;

verus! {

/// The canonical decomposition (Unicode NFD) of a sequence of codepoints:
/// every precomposed character is split into its base letter followed by
/// its combining marks, and combining marks are put in canonical order.
pub uninterp spec fn nfd_of(s: Seq<char>) -> Seq<char>;

/// Relies on `UnicodeNormalization::nfd` for `&str` of unicode-normalization,
/// which yields the canonical decomposition (UAX #15, form NFD) of the text.
/// Beyond naming the result, the contract records two facts of that form:
/// decomposition is idempotent, and the codepoints of the core alphabet have
/// no canonical decomposition (the crate's canonical tables list none for
/// them), so a core text decomposes to itself.
#[verifier::external_body]
pub(crate) fn nfd_str(s: &str) -> (r: Vec<char>)
    ensures
        r@ == nfd_of(s@),
        nfd_of(r@) == r@,
        is_core_text(s@) ==> r@ == s@,
{
    s.nfd().collect()
}

/// Relies on `UnicodeNormalization::nfd` for `char` of unicode-normalization:
/// the same canonical decomposition, applied to a single codepoint.
#[verifier::external_body]
pub(crate) fn nfd_char(c: &char) -> (r: Vec<char>)
    ensures
        r@ == nfd_of(seq![*c]),
{
    (*c).nfd().collect()
}

} // verus!
