use translit::scripts::{map_input_to_output, mapping_character_to_token, read_script, ScriptName};
use translit::scripts::TokenMap;
use translit::types::{Script, Token};

#[test]
fn test_script_classification() {
    assert!(Script::Devanagari.is_brahmic());
    assert!(Script::Telugu.is_brahmic());
    assert!(!Script::IastIso.is_brahmic());
    assert!(Script::IastIso.is_roman());
    assert!(!Script::Devanagari.is_roman());
}

#[test]
fn test_token_map_new_is_empty() {
    let map = TokenMap::new();
    assert_eq!(map.lookup('क'), None);
}

#[test]
fn test_vowel_mark_conversions() {
    assert_eq!(Token::a.to_vowel_mark(), Token::vm_a);
    assert_eq!(Token::E.to_vowel_mark(), Token::vm_E);
    assert_eq!(Token::vm_E.to_independent_vowel(), Token::E);
    assert_eq!(Token::k.to_vowel_mark(), Token::k);
}

#[test]
fn test_read() {
    let read_lines = read_script(&ScriptName::Devanagari).unwrap();
    assert_eq!(read_lines.is_empty(), false);
}

#[test]
fn test_mapping_two_scripts() {
    let res = map_input_to_output(&ScriptName::Telugu, &ScriptName::IastIso).unwrap();
    assert!(!res.is_empty())
}

#[test]
fn test_mapping_character_to_token() {
    let map = mapping_character_to_token(&ScriptName::Devanagari).unwrap();
    assert_eq!(map.lookup('क'), Some(Token::k));
    assert_eq!(map.lookup('ा'), Some(Token::vm_A));
    assert_eq!(map.lookup('्'), Some(Token::virama));
    assert_eq!(map.lookup('★'), None);
}

#[test]
fn test_mapping_telugu_reads_marks() {
    let map = mapping_character_to_token(&ScriptName::Telugu).unwrap();
    assert_eq!(map.lookup('క'), Some(Token::k));
    assert_eq!(map.lookup('ా'), Some(Token::vm_A));
    assert_eq!(map.lookup('ఏ'), Some(Token::E));
    assert_eq!(map.lookup('ే'), Some(Token::vm_E));
}

#[test]
fn test_mapping_two_scripts_content() {
    let res = map_input_to_output(&ScriptName::Telugu, &ScriptName::IastIso).unwrap();
    let consonants = res
        .iter()
        .rev()
        .find(|group| group.0 == "consonants")
        .map(|group| &group.1)
        .unwrap();
    let glyph = consonants
        .iter()
        .rev()
        .find(|entry| entry.0 == "క")
        .map(|entry| entry.1.as_str());
    assert_eq!(glyph, Some("k"));
}
