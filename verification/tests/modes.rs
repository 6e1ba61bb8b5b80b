use path_normalize::{NormalizeMode, NormalizeOptions};

#[test]
fn the_default_mode_is_lexical() {
    assert_eq!(NormalizeMode::default(), NormalizeMode::Lexical);
    assert_eq!(NormalizeOptions::default().mode(), NormalizeMode::Lexical);
    assert_eq!(NormalizeOptions::default(), NormalizeOptions::new(NormalizeMode::Lexical));
}

#[test]
fn options_carry_their_mode() {
    assert_eq!(NormalizeOptions::new(NormalizeMode::Strict).mode(), NormalizeMode::Strict);
    assert_eq!(NormalizeOptions::new(NormalizeMode::Hybrid).mode(), NormalizeMode::Hybrid);
    assert_eq!(NormalizeOptions::new(NormalizeMode::Lexical).mode(), NormalizeMode::Lexical);
}

#[test]
fn only_strict_mode_does_not_tolerate_a_missing_path() {
    assert!(!NormalizeMode::Strict.tolerates_missing());
    assert!(NormalizeMode::Hybrid.tolerates_missing());
    assert!(NormalizeMode::Lexical.tolerates_missing());
}
