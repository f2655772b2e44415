use parakeet_cpp::options::has_nul;
use parakeet_cpp::{Partial, TranscribeOptions};

#[test]
fn default_options_use_engine_language() {
    let o = TranscribeOptions::default();
    assert!(o.language.is_none());
    assert!(!o.word_timestamps);
}

#[test]
fn native_language_passes_text_through() {
    let o = TranscribeOptions {
        language: Some("auto".to_string()),
        word_timestamps: true,
    };
    assert_eq!(o.native_language().unwrap().as_deref(), Some("auto"));
    assert_eq!(TranscribeOptions::default().native_language().unwrap(), None);
}

#[test]
fn nul_detection() {
    assert!(!has_nul(""));
    assert!(!has_nul("perché"));
    assert!(has_nul("\0"));
    assert!(has_nul("it\0"));
}

#[test]
fn default_partial_is_empty() {
    let p = Partial::default();
    assert_eq!(p.text, "");
    assert_eq!(p.delta, "");
    assert!(!p.eou);
    assert!(!p.is_final);
}
