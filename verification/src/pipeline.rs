//! The normalization pipeline itself: the whole-string entry point
//! [`normalize_text`] and the stricter per-character entry point
//! [`core_char`].

use crate::decompose::{nfd_char, nfd_of, nfd_str};
use crate::greek::{
    char_is_core, char_is_greek_letter, char_is_ignored, fold_char, fold_letter, folded_letter,
    is_core_char, is_core_text, is_folded_text, is_greek_letter, is_handled,
};
use vstd::prelude::*;

verus! {

/// The fault raised by the per-character pipeline.
#[derive(Clone, Copy, Debug, PartialEq, Eq)]
pub enum NormFault {
    /// A codepoint inside the Greek block that the pipeline recognizes
    /// neither as a letter to fold nor as one to pass over.  It is carried
    /// here so that a maintainer can decide whether to extend the
    /// recognized set.
    Unhandled(char),
}

/// What folding and filtering make of an already decomposed text: every
/// Greek letter is folded (lowercased, sigma unified), and only codepoints
/// of the core alphabet are kept.
pub open spec fn normalize_core(s: Seq<char>) -> Seq<char>
    decreases s.len(),
{
    if s.len() == 0 {
        Seq::empty()
    } else {
        let rest = normalize_core(s.drop_last());
        let f = fold_char(s.last());
        if is_core_char(f) {
            rest.push(f)
        } else {
            rest
        }
    }
}

/// The whole-string pipeline: canonical decomposition, then folding and
/// filtering.
pub open spec fn spec_normalize(s: Seq<char>) -> Seq<char> {
    normalize_core(nfd_of(s))
}

/// The left-to-right fold of the per-character pipeline over one
/// character's decomposition: each Greek letter overwrites the accumulated
/// result with its folded form, everything else leaves it unchanged.  A
/// single character decomposes into at most one base letter followed by
/// combining marks, so the last letter seen is the one that counts.
pub open spec fn folded_decomposition(s: Seq<char>) -> Option<char>
    decreases s.len(),
{
    if s.len() == 0 {
        None
    } else if is_greek_letter(s.last()) {
        Some(folded_letter(s.last()))
    } else {
        folded_decomposition(s.drop_last())
    }
}

/// The first codepoint of the sequence that the per-character pipeline
/// recognizes neither as a letter nor as one to pass over, if any.
pub open spec fn first_unhandled(s: Seq<char>) -> Option<char>
    decreases s.len(),
{
    if s.len() == 0 {
        None
    } else if first_unhandled(s.drop_last()) is Some {
        first_unhandled(s.drop_last())
    } else if !is_handled(s.last()) {
        Some(s.last())
    } else {
        None
    }
}

/// Relies on `String::push` of std: appends one character to the string.
#[verifier::external_body]
fn push_char(s: &mut String, c: char)
    ensures
        final(s)@ == old(s)@.push(c),
{
    s.push(c);
}

/// Once a prefix of the sequence holds an unhandled codepoint, the whole
/// sequence reports that same codepoint first.
proof fn lemma_first_unhandled_of_prefix(s: Seq<char>, k: int)
    requires
        0 <= k <= s.len(),
        first_unhandled(s.subrange(0, k)) is Some,
    ensures
        first_unhandled(s) == first_unhandled(s.subrange(0, k)),
    decreases s.len() - k,
{
    if k == s.len() {
        assert(s.subrange(0, k) =~= s);
    } else {
        assert(s.subrange(0, k + 1).drop_last() =~= s.subrange(0, k));
        lemma_first_unhandled_of_prefix(s, k + 1);
    }
}

/// Every codepoint that the pipeline outputs is in the core alphabet and
/// is not one of the unfolded sigma forms.
pub(crate) proof fn lemma_normalize_core_chars(s: Seq<char>)
    ensures
        is_folded_text(normalize_core(s)),
    decreases s.len(),
{
    if s.len() > 0 {
        lemma_normalize_core_chars(s.drop_last());
    }
}

/// A text made of output codepoints passes through folding and filtering
/// unchanged.
proof fn lemma_normalize_core_fixed(s: Seq<char>)
    requires
        is_folded_text(s),
    ensures
        normalize_core(s) == s,
    decreases s.len(),
{
    if s.len() > 0 {
        assert(is_folded_text(s.drop_last()));
        lemma_normalize_core_fixed(s.drop_last());
        assert(normalize_core(s) =~= s);
    } else {
        assert(normalize_core(s) =~= s);
    }
}

/// Reduces a text to its core form: the canonical decomposition is folded
/// character by character (lowercase, sigma unified) and only the core
/// alphabet is kept.  Total: any input maps to some, possibly empty, core
/// text.
///
/// The result is a fixed point of the pipeline, and normalizing a text is
/// the same as normalizing its canonical decomposition.
pub fn normalize_text(text: &str) -> (r: String)
    ensures
        r@ == spec_normalize(text@),
        spec_normalize(r@) == r@,
        is_core_text(r@),
        spec_normalize(nfd_of(text@)) == r@,
{
    let decomposition = nfd_str(text);
    let ghost d = decomposition@;
    let mut result = String::new();
    let mut i: usize = 0;
    while i < decomposition.len()
        invariant
            i <= decomposition.len(),
            decomposition@ == d,
            result@ == normalize_core(d.subrange(0, i as int)),
        decreases decomposition.len() - i,
    {
        let x = decomposition[i];
        let f = if char_is_greek_letter(x) {
            fold_letter(x)
        } else {
            x
        };
        if char_is_core(f) {
            push_char(&mut result, f);
        }
        proof {
            assert(d.subrange(0, i + 1).drop_last() =~= d.subrange(0, i as int));
        }
        i = i + 1;
    }
    proof {
        assert(d.subrange(0, d.len() as int) =~= d);
        lemma_normalize_core_chars(d);
    }
    // Decomposing the finished text once more costs one linear pass and
    // carries the fixed-point guarantee: a core text decomposes to itself,
    // so a second normalization returns it unchanged.
    let _renorm = nfd_str(result.as_str());
    proof {
        lemma_normalize_core_fixed(result@);
    }
    result
}

/// Reduces a single character to its core form: its canonical
/// decomposition is folded left to right, so an accented letter yields its
/// folded base letter, and ignored codepoints yield no output.  Unlike
/// [`normalize_text`], this entry point is strict: a Greek-block codepoint
/// that is neither a recognized letter nor explicitly passed over is
/// reported as a fault carrying that codepoint, never dropped in silence.
pub fn core_char(c: &char) -> (r: Result<Option<char>, NormFault>)
    ensures
        match r {
            Ok(out) => first_unhandled(nfd_of(seq![*c])) is None && out == folded_decomposition(
                nfd_of(seq![*c]),
            ),
            Err(NormFault::Unhandled(u)) => first_unhandled(nfd_of(seq![*c])) == Some(u),
        },
{
    let decomposition = nfd_char(c);
    let ghost d = decomposition@;
    let mut out: Option<char> = None;
    let mut i: usize = 0;
    while i < decomposition.len()
        invariant
            i <= decomposition.len(),
            decomposition@ == d,
            d == nfd_of(seq![*c]),
            first_unhandled(d.subrange(0, i as int)) is None,
            out == folded_decomposition(d.subrange(0, i as int)),
        decreases decomposition.len() - i,
    {
        let x = decomposition[i];
        proof {
            assert(d.subrange(0, i + 1).drop_last() =~= d.subrange(0, i as int));
        }
        if char_is_greek_letter(x) {
            out = Some(fold_letter(x));
        } else if !char_is_ignored(x) {
            proof {
                lemma_first_unhandled_of_prefix(d, i + 1);
            }
            return Err(NormFault::Unhandled(x));
        }
        i = i + 1;
    }
    proof {
        assert(d.subrange(0, d.len() as int) =~= d);
    }
    Ok(out)
}

} // verus!
