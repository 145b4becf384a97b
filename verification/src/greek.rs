//! Classification and folding of single Greek codepoints.
//!
//! The canonical core alphabet is the lowercase Greek letters alpha through
//! omega together with the lunate sigma, which stands for every sigma
//! variant regardless of case or position in the word.

use vstd::prelude::*;

verus! {

/// The codepoint is a lowercase Greek letter, alpha through omega inclusive.
pub open spec fn is_greek_lower(c: char) -> bool {
    '\u{03B1}' <= c && c <= '\u{03C9}'
}

/// The codepoint is an uppercase Greek letter, Alpha through Omega inclusive.
pub open spec fn is_greek_upper(c: char) -> bool {
    '\u{0391}' <= c && c <= '\u{03A9}'
}

/// The codepoint is a Greek letter of either case.
pub open spec fn is_greek_letter(c: char) -> bool {
    is_greek_lower(c) || is_greek_upper(c)
}

/// The codepoint is one of the three sigma forms that the pipeline unifies:
/// medial sigma, final sigma, or capital Sigma.
pub open spec fn is_sigma_variant(c: char) -> bool {
    c == '\u{03C3}' || c == '\u{03C2}' || c == '\u{03A3}'
}

/// The simple lowercase mapping on the Greek letter ranges: an uppercase
/// letter moves down to its lowercase partner; every other codepoint is its
/// own lowercase form.  The one unassigned codepoint of the uppercase range
/// has no partner and maps to itself.
pub open spec fn greek_lower_of(c: char) -> char {
    if is_greek_upper(c) && c != '\u{03A2}' {
        ((c as u32) + 0x20) as char
    } else {
        c
    }
}

/// The folded form of a Greek letter: sigma variants become the lunate
/// sigma, every other letter becomes its lowercase form.
pub open spec fn folded_letter(c: char) -> char {
    if is_sigma_variant(c) {
        '\u{03F2}'
    } else {
        greek_lower_of(c)
    }
}

/// The case and sigma folding step of the pipeline, as one total map:
/// Greek letters are folded, everything else passes through unchanged.
pub open spec fn fold_char(c: char) -> char {
    if is_greek_letter(c) {
        folded_letter(c)
    } else {
        c
    }
}

/// The codepoint belongs to the core alphabet: a canonical lowercase Greek
/// letter or the lunate sigma.  This is the allow-list of the final filter.
pub open spec fn is_core_char(c: char) -> bool {
    is_greek_lower(c) || c == '\u{03F2}'
}

/// The codepoint is explicitly passed over by the per-character pipeline:
/// the semicolon that renders the Greek question mark, the ano teleia
/// middle dot, and everything outside the Greek block entirely.
pub open spec fn is_ignored(c: char) -> bool {
    c == ';' || c < '\u{0370}' || c > '\u{03FF}' || c == '\u{0387}'
}

/// The per-character pipeline recognizes the codepoint, either as a letter
/// to fold or as one to pass over; anything else inside the Greek block is
/// an unhandled-character fault.
pub open spec fn is_handled(c: char) -> bool {
    is_greek_letter(c) || is_ignored(c)
}

/// The simple uppercase mapping on the Greek letter ranges, used to state
/// case invariance: the sigma forms go to capital Sigma, every other
/// lowercase letter moves up to its uppercase partner.
pub open spec fn greek_upper_of(c: char) -> char {
    if c == '\u{03C3}' || c == '\u{03C2}' {
        '\u{03A3}'
    } else if is_greek_lower(c) {
        ((c as u32) - 0x20) as char
    } else {
        c
    }
}

/// The text with every Greek letter replaced by its uppercase form.
pub open spec fn greek_uppercased(s: Seq<char>) -> Seq<char> {
    s.map_values(|c: char| greek_upper_of(c))
}

/// Every codepoint of the text belongs to the core alphabet.
pub open spec fn is_core_text(s: Seq<char>) -> bool {
    forall|i: int| 0 <= i < s.len() ==> is_core_char(#[trigger] s[i])
}

/// The codepoint can appear in the output of the pipeline: it is in the
/// core alphabet, and it is not one of the sigma forms that folding has
/// already rewritten to the lunate sigma.
pub open spec fn is_folded_char(c: char) -> bool {
    is_core_char(c) && !is_sigma_variant(c)
}

/// Every codepoint of the text is one the pipeline can output.
pub open spec fn is_folded_text(s: Seq<char>) -> bool {
    forall|i: int| 0 <= i < s.len() ==> is_folded_char(#[trigger] s[i])
}

/// Folds one Greek letter: sigma variants to the lunate sigma, the rest to
/// lowercase.
pub fn fold_letter(c: char) -> (r: char)
    requires
        is_greek_letter(c),
    ensures
        r == folded_letter(c),
{
    match c {
        '\u{03C3}' | '\u{03C2}' | '\u{03A3}' => '\u{03F2}',
        '\u{0391}' => '\u{03B1}',
        '\u{0392}' => '\u{03B2}',
        '\u{0393}' => '\u{03B3}',
        '\u{0394}' => '\u{03B4}',
        '\u{0395}' => '\u{03B5}',
        '\u{0396}' => '\u{03B6}',
        '\u{0397}' => '\u{03B7}',
        '\u{0398}' => '\u{03B8}',
        '\u{0399}' => '\u{03B9}',
        '\u{039A}' => '\u{03BA}',
        '\u{039B}' => '\u{03BB}',
        '\u{039C}' => '\u{03BC}',
        '\u{039D}' => '\u{03BD}',
        '\u{039E}' => '\u{03BE}',
        '\u{039F}' => '\u{03BF}',
        '\u{03A0}' => '\u{03C0}',
        '\u{03A1}' => '\u{03C1}',
        '\u{03A4}' => '\u{03C4}',
        '\u{03A5}' => '\u{03C5}',
        '\u{03A6}' => '\u{03C6}',
        '\u{03A7}' => '\u{03C7}',
        '\u{03A8}' => '\u{03C8}',
        '\u{03A9}' => '\u{03C9}',
        _ => c,
    }
}

/// Decides whether the codepoint is a Greek letter of either case.
pub fn char_is_greek_letter(c: char) -> (b: bool)
    ensures
        b == is_greek_letter(c),
{
    ('\u{03B1}' <= c && c <= '\u{03C9}') || ('\u{0391}' <= c && c <= '\u{03A9}')
}

/// Decides whether the per-character pipeline passes the codepoint over.
pub fn char_is_ignored(c: char) -> (b: bool)
    ensures
        b == is_ignored(c),
{
    c == ';' || c < '\u{0370}' || c > '\u{03FF}' || c == '\u{0387}'
}

/// Decides whether the codepoint belongs to the core alphabet.
pub fn char_is_core(c: char) -> (b: bool)
    ensures
        b == is_core_char(c),
{
    ('\u{03B1}' <= c && c <= '\u{03C9}') || c == '\u{03F2}'
}

} // verus!
