use translit::pipeline::{tokenize, Context};
use translit::types::{Script, Token};

#[test]
fn test_context_new() {
    let ctx = Context::new("telugu".to_string(), "devanagari".to_string());
    assert_eq!(ctx.input, Script::Telugu);
    assert_eq!(ctx.output, Script::Devanagari);
}

#[test]
fn test_tokenizer_deva() {
    let text = "इ॒षे त्वो॒र्जे";
    let ctx = Context::new("devanagari".to_string(), "iast_iso".to_string());
    let tokens = tokenize(&text, &ctx).unwrap();
    assert_eq!(
        tokens,
        vec![
            Token::i,
            Token::anudaatta,
            Token::Sh,
            Token::vm_E,
            Token::Unknown(" ".to_string()),
            Token::t,
            Token::virama,
            Token::v,
            Token::vm_O,
            Token::anudaatta,
            Token::r,
            Token::virama,
            Token::j,
            Token::vm_E
        ]
    )
}
