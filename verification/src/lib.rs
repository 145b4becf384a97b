//! Normalization of Greek New Testament text into a canonical "core" form.
//!
//! Critical editions of the same passage differ in punctuation, accents,
//! breathing marks, letter case and the choice of sigma glyph.  This crate
//! reduces a text to the bare letter sequence that such editions share: it
//! decomposes each character, strips combining marks, lowercases the Greek
//! letters, unifies every sigma to the lunate form, and drops everything
//! that is not a Greek letter.
//!
//! Two entry points are offered.  [`normalize_text`] maps a whole string
//! to its core form and never fails.  [`core_char`] maps a single
//! character to at most one output character and reports a fault on
//! Greek-block codepoints it does not recognize, so that unexpected input
//! is triaged by a human instead of being silently miscounted.

mod decompose;
mod greek;
mod laws;
mod pipeline;

pub use decompose::nfd_of;
pub use greek::{
    fold_char, fold_letter, folded_letter, greek_lower_of, greek_upper_of, greek_uppercased,
    is_core_char, is_core_text, is_folded_char, is_folded_text, is_greek_letter, is_greek_lower,
    is_greek_upper, is_handled, is_ignored, is_sigma_variant,
};
pub use laws::{
    lemma_case_invariance, lemma_entry_point_equivalence, lemma_output_alphabet,
    lemma_sigma_unification, no_greek_anomalies, per_char_outputs, sigma_interchangeable,
};
pub use pipeline::{
    core_char, first_unhandled, folded_decomposition, normalize_core, normalize_text,
    spec_normalize, NormFault,
};
