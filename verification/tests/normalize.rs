//! Scenarios for the whole-string pipeline and its agreement with the
//! per-character pipeline.

use gnt_tools::{core_char, normalize_text};

#[test]
fn whole_verse() {
    let s = "16 Εἶπεν δὲ παραβολὴν πρὸς αὐτοὺς λέγων· ἀνθρώπου τινὸς πλουσίου εὐφόρησεν ἡ χώρα.";
    let expected = "ειπενδεπαραβοληνπροϲαυτουϲλεγωνανθρωπουτινοϲπλουϲιουευφορηϲενηχωρα";
    assert_eq!(normalize_text(s), expected);
}

#[test]
fn nomina_sacra_brackets_dropped() {
    // The bracket markers go, the abbreviation itself is kept as written,
    // with its sigma unified.
    assert_eq!(normalize_text("|κς|"), "κϲ");
    assert_eq!(normalize_text("(κς)"), "κϲ");
}

#[test]
fn idempotent_on_verse() {
    let s = "16 Εἶπεν δὲ παραβολὴν πρὸς αὐτοὺς λέγων· ἀνθρώπου τινὸς πλουσίου εὐφόρησεν ἡ χώρα.";
    let once = normalize_text(s);
    let twice = normalize_text(&once);
    assert_eq!(twice, once);
}

#[test]
fn empty_input() {
    assert_eq!(normalize_text(""), "");
}

#[test]
fn case_invariant() {
    assert_eq!(normalize_text("λογος 123."), "λογοϲ");
    assert_eq!(normalize_text("ΛΟΓΟΣ 123."), "λογοϲ");
}

#[test]
fn sigma_forms_unified() {
    assert_eq!(normalize_text("σοφια"), "ϲοφια");
    assert_eq!(normalize_text("ςοφια"), "ϲοφια");
    assert_eq!(normalize_text("Σοφια"), "ϲοφια");
    // Final sigma in final position, medial elsewhere: same core text.
    assert_eq!(normalize_text("καρπούς"), normalize_text("καρπούσ"));
}

#[test]
fn accents_stripped_precomposed_and_combining() {
    // One precomposed codepoint versus base letter plus combining mark.
    assert_eq!(normalize_text("\u{03AC}"), "α");
    assert_eq!(normalize_text("\u{03B1}\u{0301}"), "α");
    // Alpha with circumflex and iota subscript, fully precomposed.
    assert_eq!(normalize_text("\u{1FB7}"), "α");
}

#[test]
fn entry_points_agree_on_plain_verse() {
    let s = "16 Εἶπεν δὲ παραβολὴν πρὸς αὐτοὺς λέγων· ἀνθρώπου τινὸς πλουσίου εὐφόρησεν ἡ χώρα.";
    let per_char: String = s
        .chars()
        .filter_map(|c| core_char(&c).expect("verse has no Greek-block anomaly"))
        .collect();
    assert_eq!(per_char, normalize_text(s));
}
