use translit::lexer::{deva_to_enum, produce_scriptmap, produce_scriptmap_group, read_script};
use translit::types::{RawScriptMap, Script, ScriptMap, Token};

/// The value under `key` in a key/value list, the most recent entry winning.
fn rget<'a>(entries: &'a [(String, String)], key: &str) -> Option<&'a str> {
    entries.iter().rev().find(|entry| entry.0 == key).map(|entry| entry.1.as_str())
}

fn rget_group<'a>(groups: &'a ScriptMap, name: &str) -> Option<&'a Vec<(String, String)>> {
    groups.iter().rev().find(|group| group.0 == name).map(|group| &group.1)
}

fn map_search(search: &str, group: &str, result: &str) {
    let script: RawScriptMap = match read_script(Script::Devanagari) {
        Ok(script) => script,
        _ => panic!("Issue loading the devanagari script."),
    };
    let group = match script.iter().rev().find(|entry| entry.0 == group) {
        Some(entry) => &entry.1,
        _ => panic!("Issue loading vowels from devanagari script."),
    };

    let value = match group.iter().rev().find(|entry| entry.0 == search) {
        Some((_, Some(value))) => value,
        _ => panic!("Issue loading अ from devanagari script's vowels."),
    };

    assert_eq!(value, result);
}

#[test]
fn test_read_script() {
    map_search("अ", "vowels", "अ");
    map_search("क", "consonants", "क");
}

#[test]
fn test_scriptmap_group_inversion() {
    let script = read_script(Script::Telugu).unwrap();
    let inverted = produce_scriptmap_group(&script, "vowels".to_string(), true).unwrap();
    println!("{:?}", inverted);
    assert_eq!(rget(&inverted, "అ").unwrap(), "अ");
}

#[test]
fn test_produce_scriptmap() {
    let script = read_script(Script::Telugu).unwrap();
    let map = produce_scriptmap(&script, false).unwrap();
    println!("{:?}", map);
    assert_eq!(rget(rget_group(&map, "vowels").unwrap(), "अ").unwrap(), "అ");
}

#[test]
fn test_deva_to_enum() {
    for i in vec![("अ", Token::a), ("क", Token::k)].iter() {
        assert_eq!(deva_to_enum(i.0.to_string()), i.1);
    }
}

#[test]
fn test_enum_to_deva() {
    for (token, deva) in vec![(Token::a, "अ"), (Token::k, "क")].iter() {
        assert_eq!(token.to_devanagari(), deva.to_string());
    }
}
