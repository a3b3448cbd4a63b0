use translit::lexer::{produce_scriptmap_group, read_script};
use translit::pipeline::{render, tokenize, Context, Transliterator};
use translit::types::{ConfigError, Script, Token};

fn trans(text: &str, input: Script, output: Script) -> String {
    Transliterator::new(false, false).transliterate(text, input, output).unwrap()
}

#[test]
fn test_transliterator_new() {
    let translit = Transliterator::new(true, false);
    assert_eq!(translit.context_a, true);
    assert_eq!(translit.context_b, false);
}

#[test]
fn test_script_from_name() {
    assert_eq!(Script::from_name("devanagari"), Ok(Script::Devanagari));
    assert_eq!(Script::from_name("telugu"), Ok(Script::Telugu));
    assert_eq!(Script::from_name("iast_iso"), Ok(Script::IastIso));
    assert_eq!(Script::from_name("klingon"), Err(ConfigError));
    assert_eq!(Script::from_name("Devanagari"), Err(ConfigError));
}

#[test]
fn test_bare_consonant_tokenizes_alone() {
    let ctx = Context::new("devanagari".to_string(), "iast_iso".to_string());
    let tokens = tokenize("क", &ctx).unwrap();
    assert_eq!(tokens, vec![Token::k]);
}

#[test]
fn test_bare_consonant_to_roman_gets_inherent_vowel() {
    assert_eq!(trans("क", Script::Devanagari, Script::IastIso), "ka");
}

#[test]
fn test_virama_suppresses_inherent_vowel() {
    let ctx = Context::new("devanagari".to_string(), "iast_iso".to_string());
    let tokens = tokenize("क्", &ctx).unwrap();
    assert_eq!(tokens, vec![Token::k, Token::virama]);
    assert_eq!(trans("क्", Script::Devanagari, Script::IastIso), "k");
}

#[test]
fn test_vowel_sign_after_consonant_not_independent() {
    let ctx = Context::new("devanagari".to_string(), "devanagari".to_string());
    let tokens = vec![Token::s, Token::vm_a];
    let out = render(&tokens, &ctx).unwrap();
    assert_eq!(out, "स");
}

#[test]
fn test_lone_vowel_renders_independent() {
    let ctx = Context::new("devanagari".to_string(), "devanagari".to_string());
    let tokens = vec![Token::a];
    let out = render(&tokens, &ctx).unwrap();
    assert_eq!(out, "अ");
}

#[test]
fn test_round_trip_devanagari_word() {
    let text = "महासरस्वती";
    assert_eq!(trans(text, Script::Devanagari, Script::Devanagari), text);
}

#[test]
fn test_round_trip_devanagari_accented() {
    let text = "इ॒षे त्वो॒र्जे";
    assert_eq!(trans(text, Script::Devanagari, Script::Devanagari), text);
}

#[test]
fn test_round_trip_telugu_word() {
    let text = "మహాసరస్వతీ";
    assert_eq!(trans(text, Script::Telugu, Script::Telugu), text);
}

#[test]
fn test_unknown_glyph_passes_through() {
    assert_eq!(trans("क★ख", Script::Devanagari, Script::Telugu), "క★ఖ");
    assert_eq!(trans("क★ख", Script::Devanagari, Script::IastIso), "ka★kha");
}

#[test]
fn test_vowel_mark_collapsing_keeps_final_mark() {
    let ctx = Context::new("devanagari".to_string(), "devanagari".to_string());
    let tokens = tokenize("काि", &ctx).unwrap();
    assert_eq!(tokens, vec![Token::k, Token::vm_i]);
}

#[test]
fn test_devanagari_to_telugu_syllables() {
    assert_eq!(trans("महा", Script::Devanagari, Script::Telugu), "మహా");
    assert_eq!(trans("क्त", Script::Devanagari, Script::Telugu), "క్త");
}

#[test]
fn test_devanagari_to_roman_words() {
    assert_eq!(trans("कखग", Script::Devanagari, Script::IastIso), "kakhaga");
    assert_eq!(trans("कं", Script::Devanagari, Script::IastIso), "kaṃ");
    assert_eq!(trans("कः", Script::Devanagari, Script::IastIso), "kaḥ");
    assert_eq!(trans("इ॒", Script::Devanagari, Script::IastIso), "i̱");
}

#[test]
fn test_roman_to_devanagari_words() {
    assert_eq!(trans("ka", Script::IastIso, Script::Devanagari), "क");
    assert_eq!(trans("k", Script::IastIso, Script::Devanagari), "क्");
    assert_eq!(trans("tva", Script::IastIso, Script::Devanagari), "त्व");
    assert_eq!(trans("sarasvatī", Script::IastIso, Script::Devanagari), "सरस्वती");
}

#[test]
fn test_roman_round_trip() {
    assert_eq!(trans("ka", Script::IastIso, Script::IastIso), "ka");
    assert_eq!(trans("sarasvatī", Script::IastIso, Script::IastIso), "sarasvatī");
}

/// The value under `key`, the most recent entry winning.
fn rget<'a>(entries: &'a [(String, String)], key: &str) -> Option<&'a str> {
    entries.iter().rev().find(|entry| entry.0 == key).map(|entry| entry.1.as_str())
}

#[test]
fn test_inversion_recovers_pairs() {
    let script = read_script(Script::Telugu).unwrap();
    for name in ["vowels", "vowel_marks", "consonants", "yogavaahas", "virama"] {
        let write_view = produce_scriptmap_group(&script, name.to_string(), false).unwrap();
        let read_view = produce_scriptmap_group(&script, name.to_string(), true).unwrap();
        for (glyph, phoneme) in read_view.iter() {
            if rget(&read_view, glyph) == Some(phoneme.as_str()) {
                assert_eq!(rget(&write_view, phoneme), Some(glyph.as_str()));
            }
        }
    }
}
