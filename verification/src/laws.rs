//! The properties that hold of the pipeline, stated and proved once and
//! for all inputs.
//!
//! The whole-string pipeline first takes the canonical decomposition of
//! its input, and what decomposition makes of an arbitrary string has no
//! short exact statement.  The laws that compare two runs of the pipeline
//! are therefore stated under the hypothesis that the inputs at hand are
//! their own canonical decomposition — which is true of any text of plain
//! (unaccented) Greek letters, digits and punctuation — while the laws
//! about a single run hold unconditionally.

use crate::decompose::nfd_of;
use crate::greek::{
    fold_char, folded_letter, greek_upper_of, greek_uppercased, is_core_char, is_core_text,
    is_greek_letter, is_handled, is_sigma_variant,
};
use crate::pipeline::{
    folded_decomposition, lemma_normalize_core_chars, normalize_core, spec_normalize,
};
use vstd::prelude::*;

verus! {

/// Two texts of the same length that differ only in the choice of sigma
/// form at any position.
pub open spec fn sigma_interchangeable(s: Seq<char>, t: Seq<char>) -> bool {
    &&& s.len() == t.len()
    &&& forall|i: int|
        0 <= i < s.len() ==> (#[trigger] s[i] == #[trigger] t[i] || (is_sigma_variant(s[i])
            && is_sigma_variant(t[i])))
}

/// The text is free of Greek-block anomalies for the per-character
/// pipeline: every codepoint is recognized (a letter, or one to pass
/// over), is not the unassigned codepoint of the uppercase range, and is
/// its own canonical decomposition.
pub open spec fn no_greek_anomalies(s: Seq<char>) -> bool {
    forall|i: int|
        0 <= i < s.len() ==> (is_handled(#[trigger] s[i]) && s[i] != '\u{03A2}' && nfd_of(
            seq![s[i]],
        ) =~= seq![s[i]])
}

/// The per-character pipeline run over a whole text: the outputs of
/// [`crate::core_char`] on each character, in order, with the characters
/// that yield no output skipped.
pub open spec fn per_char_outputs(s: Seq<char>) -> Seq<char>
    decreases s.len(),
{
    if s.len() == 0 {
        Seq::empty()
    } else {
        let rest = per_char_outputs(s.drop_last());
        match folded_decomposition(nfd_of(seq![s.last()])) {
            Some(c) => rest.push(c),
            None => rest,
        }
    }
}

/// Folding and filtering treat two texts alike wherever their codepoints
/// fold alike.
proof fn lemma_normalize_core_pointwise(s: Seq<char>, t: Seq<char>)
    requires
        s.len() == t.len(),
        forall|i: int| 0 <= i < s.len() ==> fold_char(#[trigger] s[i]) == fold_char(#[trigger] t[i]),
    ensures
        normalize_core(s) == normalize_core(t),
    decreases s.len(),
{
    if s.len() > 0 {
        lemma_normalize_core_pointwise(s.drop_last(), t.drop_last());
    }
}

/// Output alphabet invariant: every codepoint that the whole-string
/// pipeline outputs is a canonical lowercase Greek letter or the lunate
/// sigma — and never one of the unfolded sigma forms, so the lunate glyph
/// is the only sigma that can appear.
pub proof fn lemma_output_alphabet(s: Seq<char>)
    ensures
        is_core_text(spec_normalize(s)),
        forall|i: int|
            0 <= i < spec_normalize(s).len() ==> !is_sigma_variant(#[trigger] spec_normalize(s)[i]),
{
    lemma_normalize_core_chars(nfd_of(s));
}

/// Case invariance: a text that is its own canonical decomposition, as is
/// its uppercased form, normalizes to the same core text as that
/// uppercased form.  In particular the pipeline does not depend on the
/// case in which a plain Greek text is transmitted.
pub proof fn lemma_case_invariance(s: Seq<char>)
    ensures
        (nfd_of(s) == s && nfd_of(greek_uppercased(s)) == greek_uppercased(s)) ==> spec_normalize(
            greek_uppercased(s),
        ) == spec_normalize(s),
{
    if nfd_of(s) == s && nfd_of(greek_uppercased(s)) == greek_uppercased(s) {
        assert forall|i: int| 0 <= i < s.len() implies fold_char(
            #[trigger] greek_uppercased(s)[i],
        ) == fold_char(#[trigger] s[i]) by {
            lemma_fold_char_of_upper(s[i]);
        }
        lemma_normalize_core_pointwise(greek_uppercased(s), s);
    }
}

/// Folding erases the case distinction introduced by uppercasing.
proof fn lemma_fold_char_of_upper(c: char)
    ensures
        fold_char(greek_upper_of(c)) == fold_char(c),
{
}

/// Sigma unification: two texts that are their own canonical
/// decompositions and differ only in the choice of sigma form normalize
/// to the same core text, in which the lunate glyph stands for all of
/// them.
pub proof fn lemma_sigma_unification(s: Seq<char>, t: Seq<char>)
    requires
        sigma_interchangeable(s, t),
    ensures
        (nfd_of(s) == s && nfd_of(t) == t) ==> spec_normalize(s) == spec_normalize(t),
{
    if nfd_of(s) == s && nfd_of(t) == t {
        lemma_normalize_core_pointwise(s, t);
    }
}

/// On a text free of Greek-block anomalies, folding and filtering agree
/// with the per-character fold, position by position.
proof fn lemma_per_char_outputs_core(s: Seq<char>)
    requires
        no_greek_anomalies(s),
    ensures
        per_char_outputs(s) == normalize_core(s),
    decreases s.len(),
{
    if s.len() > 0 {
        assert(no_greek_anomalies(s.drop_last()));
        lemma_per_char_outputs_core(s.drop_last());
        let c = s.last();
        assert(nfd_of(seq![c]) =~= seq![c]);
        assert(seq![c].drop_last() =~= Seq::<char>::empty());
        assert(folded_decomposition(Seq::<char>::empty()) is None);
        if is_greek_letter(c) {
            assert(folded_decomposition(seq![c]) == Some(folded_letter(c)));
            assert(is_core_char(folded_letter(c)));
            assert(per_char_outputs(s) == per_char_outputs(s.drop_last()).push(folded_letter(c)));
        } else {
            assert(folded_decomposition(seq![c]) is None);
            assert(!is_core_char(fold_char(c)));
        }
    }
}

/// Entry-point equivalence: on a text with no Greek-block anomalies that
/// is its own canonical decomposition, running the per-character pipeline
/// over each character and keeping the non-empty outputs yields exactly
/// what the whole-string pipeline returns.
pub proof fn lemma_entry_point_equivalence(s: Seq<char>)
    ensures
        (no_greek_anomalies(s) && nfd_of(s) == s) ==> per_char_outputs(s) == spec_normalize(s),
{
    if no_greek_anomalies(s) && nfd_of(s) == s {
        lemma_per_char_outputs_core(s);
    }
}

} // verus!
