//! The whole-text scenario for the per-character entry point.

use gnt_tools::core_char;

#[test]
fn test_core_text() {
    let s = "16 Εἶπεν δὲ παραβολὴν πρὸς αὐτοὺς λέγων·
            ἀνθρώπου τινὸς πλουσίου εὐφόρησεν ἡ Ͷχώρα. 17 
            καὶ διελογίζετο ἐν ἑαυτῷ λέγων· τί ποιήσω, ὅτι 
            οὐκ ἔχω ποῦ συνάξω τοὺς καρπούς μου; ";

    let s2 = "ειπενδεπαραβοληνπροϲαυτουϲλεγωνανθρωπουτ\
            ινοϲπλουϲιουευφορηϲενηχωρακαιδιελογιζετοενεαυτω\
            λεγωντιποιηϲωοτιουκεχωπουϲυναξωτουϲκαρπουϲμου";

    // A Greek-block codepoint that the pipeline does not recognize is
    // reported as a fault; this caller chooses to skip such characters.
    let core_text: String = s.chars().filter_map(|c| core_char(&c).unwrap_or(None)).collect();

    assert_eq!(core_text.as_str(), s2);
}
