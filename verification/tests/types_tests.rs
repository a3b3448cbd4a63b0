use translit::types::Token;

#[test]
fn test_vowel() {
    assert_eq!(Token::a.is_vowel(), true);
}

#[test]
fn test_not_vowel() {
    assert_eq!(Token::M.is_vowel(), false);
}

#[test]
fn test_yogavaha() {
    assert_eq!(Token::M.is_yogavaha(), true);
}

#[test]
fn test_not_yogavaha() {
    assert_eq!(Token::a.is_yogavaha(), false);
}

#[test]
fn test_consonant() {
    assert_eq!(Token::k.is_consonant(), true);
}

#[test]
fn test_not_consonant() {
    assert_eq!(Token::a.is_yogavaha(), false);
}

#[test]
fn test_virama() {
    assert_eq!(Token::virama.is_virama(), true);
}

#[test]
fn test_not_virama() {
    assert_eq!(Token::a.is_virama(), false);
}

#[test]
fn test_accent() {
    assert_eq!(Token::udaatta.is_accent(), true);
}

#[test]
fn test_not_accent() {
    assert_eq!(Token::a.is_accent(), false);
}
