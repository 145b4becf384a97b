//! Scenarios for the per-character entry point, including its faults.

use gnt_tools::{core_char, NormFault};

#[test]
fn letters_fold() {
    assert_eq!(core_char(&'α'), Ok(Some('α')));
    assert_eq!(core_char(&'Α'), Ok(Some('α')));
    assert_eq!(core_char(&'Ω'), Ok(Some('ω')));
    assert_eq!(core_char(&'σ'), Ok(Some('ϲ')));
    assert_eq!(core_char(&'ς'), Ok(Some('ϲ')));
    assert_eq!(core_char(&'Σ'), Ok(Some('ϲ')));
}

#[test]
fn accented_letters_fold_to_bare_base() {
    assert_eq!(core_char(&'ά'), Ok(Some('α')));
    assert_eq!(core_char(&'ᾷ'), Ok(Some('α')));
    assert_eq!(core_char(&'Ἐ'), Ok(Some('ε')));
    assert_eq!(core_char(&'ῷ'), Ok(Some('ω')));
}

#[test]
fn punctuation_and_foreign_text_yield_nothing() {
    assert_eq!(core_char(&';'), Ok(None));
    // The Greek question mark decomposes to the semicolon.
    assert_eq!(core_char(&'\u{037E}'), Ok(None));
    // The ano teleia decomposes to the plain middle dot.
    assert_eq!(core_char(&'\u{0387}'), Ok(None));
    assert_eq!(core_char(&'a'), Ok(None));
    assert_eq!(core_char(&'5'), Ok(None));
    assert_eq!(core_char(&'|'), Ok(None));
    assert_eq!(core_char(&' '), Ok(None));
    // A bare combining accent is outside the Greek block.
    assert_eq!(core_char(&'\u{0301}'), Ok(None));
}

#[test]
fn unrecognized_greek_block_codepoints_fault() {
    // Pamphylian digamma, inside the Greek block, not a handled letter.
    assert_eq!(core_char(&'Ͷ'), Err(NormFault::Unhandled('Ͷ')));
    // Greek ypogegrammeni has no canonical decomposition and stays put.
    assert_eq!(core_char(&'\u{037A}'), Err(NormFault::Unhandled('\u{037A}')));
    // The lunate sigma itself is output alphabet, not recognized input.
    assert_eq!(core_char(&'ϲ'), Err(NormFault::Unhandled('ϲ')));
}

#[test]
fn unassigned_uppercase_slot_passes_through() {
    // The hole in the uppercase range has no lowercase partner and no
    // decomposition; the generic lowercase mapping returns it unchanged.
    assert_eq!(core_char(&'\u{03A2}'), Ok(Some('\u{03A2}')));
}
