//! Script tables: the embedded per-script configuration, its parsing, the
//! canonical Devanagari names of the tokens, and the derivation of write and
//! read views from one table, including the table inverter and its law.

use vstd::prelude::*;

use crate::scanner::char_to_string;
use crate::types::{ConfigError, RawScriptMap, Script, ScriptMap, Token, TokenV};

verus! {

/// Devanagari writes the canonical names themselves, so its table is the
/// identity. The inherent vowel's sign is deliberately absent from
/// `vowel_marks`: written after a consonant it is no visible mark at all.
pub const DEVANAGARI_TOML: &'static str = r#"
[vowels]
"अ" = "अ"
"आ" = "आ"
"इ" = "इ"
"ई" = "ई"
"उ" = "उ"
"ऊ" = "ऊ"
"ऋ" = "ऋ"
"ॠ" = "ॠ"
"ऌ" = "ऌ"
"ॡ" = "ॡ"
"ऎ" = "ऎ"
"ए" = "ए"
"ऐ" = "ऐ"
"ऒ" = "ऒ"
"ओ" = "ओ"
"औ" = "औ"

[vowel_marks]
"आ" = "ा"
"इ" = "ि"
"ई" = "ी"
"उ" = "ु"
"ऊ" = "ू"
"ऋ" = "ृ"
"ॠ" = "ॄ"
"ऌ" = "ॢ"
"ॡ" = "ॣ"
"ऎ" = "ॆ"
"ए" = "े"
"ऐ" = "ै"
"ऒ" = "ॊ"
"ओ" = "ो"
"औ" = "ौ"

[consonants]
"क" = "क"
"ख" = "ख"
"ग" = "ग"
"घ" = "घ"
"ङ" = "ङ"
"च" = "च"
"छ" = "छ"
"ज" = "ज"
"झ" = "झ"
"ञ" = "ञ"
"ट" = "ट"
"ठ" = "ठ"
"ड" = "ड"
"ढ" = "ढ"
"ण" = "ण"
"त" = "त"
"थ" = "थ"
"द" = "द"
"ध" = "ध"
"न" = "न"
"प" = "प"
"फ" = "फ"
"ब" = "ब"
"भ" = "भ"
"म" = "म"
"य" = "य"
"र" = "र"
"ल" = "ल"
"व" = "व"
"श" = "श"
"ष" = "ष"
"स" = "स"
"ह" = "ह"

[yogavaahas]
"ँ" = "ँ"
"ं" = "ं"
"ः" = "ः"

[virama]
"्" = "्"

[accents]
"॑" = "॑"
"॒" = "॒"

[symbols]
"।" = "।"
"॥" = "॥"
"#;

/// Telugu glyphs for each canonical name. The Vedic accent marks are the
/// shared combining characters also used with Devanagari.
pub const TELUGU_TOML: &'static str = r#"
[vowels]
"अ" = "అ"
"आ" = "ఆ"
"इ" = "ఇ"
"ई" = "ఈ"
"उ" = "ఉ"
"ऊ" = "ఊ"
"ऋ" = "ఋ"
"ॠ" = "ౠ"
"ऌ" = "ఌ"
"ॡ" = "ౡ"
"ऎ" = "ఎ"
"ए" = "ఏ"
"ऐ" = "ఐ"
"ऒ" = "ఒ"
"ओ" = "ఓ"
"औ" = "ఔ"

[vowel_marks]
"आ" = "ా"
"इ" = "ి"
"ई" = "ీ"
"उ" = "ు"
"ऊ" = "ూ"
"ऋ" = "ృ"
"ॠ" = "ౄ"
"ऌ" = "ౢ"
"ॡ" = "ౣ"
"ऎ" = "ె"
"ए" = "ే"
"ऐ" = "ై"
"ऒ" = "ొ"
"ओ" = "ో"
"औ" = "ౌ"

[consonants]
"क" = "క"
"ख" = "ఖ"
"ग" = "గ"
"घ" = "ఘ"
"ङ" = "ఙ"
"च" = "చ"
"छ" = "ఛ"
"ज" = "జ"
"झ" = "ఝ"
"ञ" = "ఞ"
"ट" = "ట"
"ठ" = "ఠ"
"ड" = "డ"
"ढ" = "ఢ"
"ण" = "ణ"
"त" = "త"
"थ" = "థ"
"द" = "ద"
"ध" = "ధ"
"न" = "న"
"प" = "ప"
"फ" = "ఫ"
"ब" = "బ"
"भ" = "భ"
"म" = "మ"
"य" = "య"
"र" = "ర"
"ल" = "ల"
"व" = "వ"
"श" = "శ"
"ष" = "ష"
"स" = "స"
"ह" = "హ"

[yogavaahas]
"ँ" = "ఁ"
"ं" = "ం"
"ः" = "ః"

[virama]
"्" = "్"

[accents]
"॑" = "॑"
"॒" = "॒"

[symbols]
"।" = "।"
"॥" = "॥"
"#;

/// IAST/ISO romanization. A romanized scheme writes every vowel explicitly,
/// so it declares no `vowel_marks` (the write view copies `vowels`) and no
/// virama. The accent values are combining marks: a vertical line above for
/// the svarita, a macron below for the anudatta.
pub const IAST_ISO_TOML: &'static str = r#"
[vowels]
"अ" = "a"
"आ" = "ā"
"इ" = "i"
"ई" = "ī"
"उ" = "u"
"ऊ" = "ū"
"ऋ" = "ṛ"
"ॠ" = "ṝ"
"ऌ" = "ḷ"
"ॡ" = "ḹ"
"ऎ" = "e"
"ए" = "ē"
"ऐ" = "ai"
"ऒ" = "o"
"ओ" = "ō"
"औ" = "au"

[consonants]
"क" = "k"
"ख" = "kh"
"ग" = "g"
"घ" = "gh"
"ङ" = "ṅ"
"च" = "c"
"छ" = "ch"
"ज" = "j"
"झ" = "jh"
"ञ" = "ñ"
"ट" = "ṭ"
"ठ" = "ṭh"
"ड" = "ḍ"
"ढ" = "ḍh"
"ण" = "ṇ"
"त" = "t"
"थ" = "th"
"द" = "d"
"ध" = "dh"
"न" = "n"
"प" = "p"
"फ" = "ph"
"ब" = "b"
"भ" = "bh"
"म" = "m"
"य" = "y"
"र" = "r"
"ल" = "l"
"व" = "v"
"श" = "ś"
"ष" = "ṣ"
"स" = "s"
"ह" = "h"

[yogavaahas]
"ं" = "ṃ"
"ः" = "ḥ"

[accents]
"॑" = "̍"
"॒" = "̱"

[symbols]
"।" = "|"
"॥" = "||"
"#;

/// Looks a key up in a sequence of entries, the most recently appended entry
/// winning. This is the lookup policy of every table in this crate: when a
/// script reuses a glyph inside one category, the entry inserted last is the
/// one retained.
pub open spec fn rlookup<K, V>(entries: Seq<(K, V)>, key: K) -> Option<V>
    decreases entries.len(),
{
    if entries.len() == 0 {
        None
    } else if entries.last().0 == key {
        Some(entries.last().1)
    } else {
        rlookup(entries.drop_last(), key)
    }
}

/// Looks `key` up among string-keyed entries, scanning from the most recent.
pub(crate) fn find_str_key<'a, V: DeepView>(entries: &'a Vec<(String, V)>, key: &String) -> (res:
    Option<&'a V>)
    ensures
        match res {
            Some(value) => rlookup(entries.deep_view(), key@) == Some(value.deep_view()),
            None => rlookup(entries.deep_view(), key@) is None,
        },
{
    let ghost all = entries.deep_view();
    let mut idx = entries.len();
    proof {
        assert(all.take(idx as int) =~= all);
    }
    while idx > 0
        invariant
            idx <= entries@.len(),
            all == entries.deep_view(),
            rlookup(all, key@) == rlookup(all.take(idx as int), key@),
        decreases idx,
    {
        idx = idx - 1;
        let entry = &entries[idx];
        proof {
            assert(all.take(idx + 1).last() == all[idx as int]);
            assert(all.take(idx + 1).drop_last() =~= all.take(idx as int));
        }
        if entry.0 == *key {
            return Some(&entry.1);
        }
    }
    None
}

/// Looks `key` up among char-keyed entries, scanning from the most recent.
pub(crate) fn find_char_key<'a, V: DeepView>(entries: &'a Vec<(char, V)>, key: char) -> (res:
    Option<&'a V>)
    ensures
        match res {
            Some(value) => rlookup(entries.deep_view(), key) == Some(value.deep_view()),
            None => rlookup(entries.deep_view(), key) is None,
        },
{
    let ghost all = entries.deep_view();
    let mut idx = entries.len();
    proof {
        assert(all.take(idx as int) =~= all);
    }
    while idx > 0
        invariant
            idx <= entries@.len(),
            all == entries.deep_view(),
            rlookup(all, key) == rlookup(all.take(idx as int), key),
        decreases idx,
    {
        idx = idx - 1;
        let entry = &entries[idx];
        proof {
            assert(all.take(idx + 1).last() == all[idx as int]);
            assert(all.take(idx + 1).drop_last() =~= all.take(idx as int));
        }
        if entry.0 == key {
            return Some(&entry.1);
        }
    }
    None
}

/// The token a canonical Devanagari character denotes, if it is one this
/// crate knows.
pub open spec fn token_of_deva_char(c: char) -> Option<TokenV> {
    match c {
        'अ' => Some(TokenV::a),
        'आ' => Some(TokenV::A),
        'इ' => Some(TokenV::i),
        'ई' => Some(TokenV::I),
        'उ' => Some(TokenV::u),
        'ऊ' => Some(TokenV::U),
        'ऋ' => Some(TokenV::RRi),
        'ॠ' => Some(TokenV::RRI),
        'ऌ' => Some(TokenV::LLi),
        'ॡ' => Some(TokenV::LLI),
        'ऎ' => Some(TokenV::e),
        'ए' => Some(TokenV::E),
        'ऐ' => Some(TokenV::ai),
        'ऒ' => Some(TokenV::o),
        'ओ' => Some(TokenV::O),
        'औ' => Some(TokenV::au),
        'क' => Some(TokenV::k),
        'ख' => Some(TokenV::kh),
        'ग' => Some(TokenV::g),
        'घ' => Some(TokenV::gh),
        'ङ' => Some(TokenV::ng),
        'च' => Some(TokenV::c),
        'छ' => Some(TokenV::ch),
        'ज' => Some(TokenV::j),
        'झ' => Some(TokenV::jh),
        'ञ' => Some(TokenV::ny),
        'ट' => Some(TokenV::T),
        'ठ' => Some(TokenV::Th),
        'ड' => Some(TokenV::D),
        'ढ' => Some(TokenV::Dh),
        'ण' => Some(TokenV::N),
        'त' => Some(TokenV::t),
        'थ' => Some(TokenV::th),
        'द' => Some(TokenV::d),
        'ध' => Some(TokenV::dh),
        'न' => Some(TokenV::n),
        'प' => Some(TokenV::p),
        'फ' => Some(TokenV::ph),
        'ब' => Some(TokenV::b),
        'भ' => Some(TokenV::bh),
        'म' => Some(TokenV::m),
        'य' => Some(TokenV::y),
        'र' => Some(TokenV::r),
        'ल' => Some(TokenV::l),
        'व' => Some(TokenV::v),
        'श' => Some(TokenV::sh),
        'ष' => Some(TokenV::Sh),
        'स' => Some(TokenV::s),
        'ह' => Some(TokenV::h),
        'ा' => Some(TokenV::vm_A),
        'ि' => Some(TokenV::vm_i),
        'ी' => Some(TokenV::vm_I),
        'ु' => Some(TokenV::vm_u),
        'ू' => Some(TokenV::vm_U),
        'ृ' => Some(TokenV::vm_RRi),
        'ॄ' => Some(TokenV::vm_RRI),
        'ॢ' => Some(TokenV::vm_LLi),
        'ॣ' => Some(TokenV::vm_LLI),
        'ॆ' => Some(TokenV::vm_e),
        'े' => Some(TokenV::vm_E),
        'ै' => Some(TokenV::vm_ai),
        'ॊ' => Some(TokenV::vm_o),
        'ो' => Some(TokenV::vm_O),
        'ौ' => Some(TokenV::vm_au),
        'ँ' => Some(TokenV::cbindu__y),
        'ं' => Some(TokenV::M),
        'ः' => Some(TokenV::H),
        '्' => Some(TokenV::virama),
        '॑' => Some(TokenV::svarita),
        '॒' => Some(TokenV::anudaatta),
        '।' => Some(TokenV::danda),
        '॥' => Some(TokenV::dvidanda),
        _ => None,
    }
}

/// The token a canonical Devanagari character denotes, if any.
pub fn deva_char_to_token(c: char) -> (res: Option<Token>)
    ensures
        res.deep_view() == token_of_deva_char(c),
{
    match c {
        'अ' => Some(Token::a),
        'आ' => Some(Token::A),
        'इ' => Some(Token::i),
        'ई' => Some(Token::I),
        'उ' => Some(Token::u),
        'ऊ' => Some(Token::U),
        'ऋ' => Some(Token::RRi),
        'ॠ' => Some(Token::RRI),
        'ऌ' => Some(Token::LLi),
        'ॡ' => Some(Token::LLI),
        'ऎ' => Some(Token::e),
        'ए' => Some(Token::E),
        'ऐ' => Some(Token::ai),
        'ऒ' => Some(Token::o),
        'ओ' => Some(Token::O),
        'औ' => Some(Token::au),
        'क' => Some(Token::k),
        'ख' => Some(Token::kh),
        'ग' => Some(Token::g),
        'घ' => Some(Token::gh),
        'ङ' => Some(Token::ng),
        'च' => Some(Token::c),
        'छ' => Some(Token::ch),
        'ज' => Some(Token::j),
        'झ' => Some(Token::jh),
        'ञ' => Some(Token::ny),
        'ट' => Some(Token::T),
        'ठ' => Some(Token::Th),
        'ड' => Some(Token::D),
        'ढ' => Some(Token::Dh),
        'ण' => Some(Token::N),
        'त' => Some(Token::t),
        'थ' => Some(Token::th),
        'द' => Some(Token::d),
        'ध' => Some(Token::dh),
        'न' => Some(Token::n),
        'प' => Some(Token::p),
        'फ' => Some(Token::ph),
        'ब' => Some(Token::b),
        'भ' => Some(Token::bh),
        'म' => Some(Token::m),
        'य' => Some(Token::y),
        'र' => Some(Token::r),
        'ल' => Some(Token::l),
        'व' => Some(Token::v),
        'श' => Some(Token::sh),
        'ष' => Some(Token::Sh),
        'स' => Some(Token::s),
        'ह' => Some(Token::h),
        'ा' => Some(Token::vm_A),
        'ि' => Some(Token::vm_i),
        'ी' => Some(Token::vm_I),
        'ु' => Some(Token::vm_u),
        'ू' => Some(Token::vm_U),
        'ृ' => Some(Token::vm_RRi),
        'ॄ' => Some(Token::vm_RRI),
        'ॢ' => Some(Token::vm_LLi),
        'ॣ' => Some(Token::vm_LLI),
        'ॆ' => Some(Token::vm_e),
        'े' => Some(Token::vm_E),
        'ै' => Some(Token::vm_ai),
        'ॊ' => Some(Token::vm_o),
        'ो' => Some(Token::vm_O),
        'ौ' => Some(Token::vm_au),
        'ँ' => Some(Token::cbindu__y),
        'ं' => Some(Token::M),
        'ः' => Some(Token::H),
        '्' => Some(Token::virama),
        '॑' => Some(Token::svarita),
        '॒' => Some(Token::anudaatta),
        '।' => Some(Token::danda),
        '॥' => Some(Token::dvidanda),
        _ => None,
    }
}

/// The canonical Devanagari character of a token, where one exists.
pub open spec fn deva_char_of(tok: TokenV) -> Option<char> {
    match tok {
        TokenV::a => Some('अ'),
        TokenV::A => Some('आ'),
        TokenV::i => Some('इ'),
        TokenV::I => Some('ई'),
        TokenV::u => Some('उ'),
        TokenV::U => Some('ऊ'),
        TokenV::RRi => Some('ऋ'),
        TokenV::RRI => Some('ॠ'),
        TokenV::LLi => Some('ऌ'),
        TokenV::LLI => Some('ॡ'),
        TokenV::e => Some('ऎ'),
        TokenV::E => Some('ए'),
        TokenV::ai => Some('ऐ'),
        TokenV::o => Some('ऒ'),
        TokenV::O => Some('ओ'),
        TokenV::au => Some('औ'),
        TokenV::k => Some('क'),
        TokenV::kh => Some('ख'),
        TokenV::g => Some('ग'),
        TokenV::gh => Some('घ'),
        TokenV::ng => Some('ङ'),
        TokenV::c => Some('च'),
        TokenV::ch => Some('छ'),
        TokenV::j => Some('ज'),
        TokenV::jh => Some('झ'),
        TokenV::ny => Some('ञ'),
        TokenV::T => Some('ट'),
        TokenV::Th => Some('ठ'),
        TokenV::D => Some('ड'),
        TokenV::Dh => Some('ढ'),
        TokenV::N => Some('ण'),
        TokenV::t => Some('त'),
        TokenV::th => Some('थ'),
        TokenV::d => Some('द'),
        TokenV::dh => Some('ध'),
        TokenV::n => Some('न'),
        TokenV::p => Some('प'),
        TokenV::ph => Some('फ'),
        TokenV::b => Some('ब'),
        TokenV::bh => Some('भ'),
        TokenV::m => Some('म'),
        TokenV::y => Some('य'),
        TokenV::r => Some('र'),
        TokenV::l => Some('ल'),
        TokenV::v => Some('व'),
        TokenV::sh => Some('श'),
        TokenV::Sh => Some('ष'),
        TokenV::s => Some('स'),
        TokenV::h => Some('ह'),
        TokenV::vm_A => Some('ा'),
        TokenV::vm_i => Some('ि'),
        TokenV::vm_I => Some('ी'),
        TokenV::vm_u => Some('ु'),
        TokenV::vm_U => Some('ू'),
        TokenV::vm_RRi => Some('ृ'),
        TokenV::vm_RRI => Some('ॄ'),
        TokenV::vm_LLi => Some('ॢ'),
        TokenV::vm_LLI => Some('ॣ'),
        TokenV::vm_e => Some('ॆ'),
        TokenV::vm_E => Some('े'),
        TokenV::vm_ai => Some('ै'),
        TokenV::vm_o => Some('ॊ'),
        TokenV::vm_O => Some('ो'),
        TokenV::vm_au => Some('ौ'),
        TokenV::cbindu__y => Some('ँ'),
        TokenV::M => Some('ं'),
        TokenV::H => Some('ः'),
        TokenV::virama => Some('्'),
        TokenV::svarita => Some('॑'),
        TokenV::anudaatta => Some('॒'),
        TokenV::danda => Some('।'),
        TokenV::dvidanda => Some('॥'),
        _ => None,
    }
}

/// The canonical Devanagari character of a token, where one exists.
pub fn token_to_deva_char(token: &Token) -> (res: Option<char>)
    ensures
        res == deva_char_of(token@),
{
    match token {
        Token::a => Some('अ'),
        Token::A => Some('आ'),
        Token::i => Some('इ'),
        Token::I => Some('ई'),
        Token::u => Some('उ'),
        Token::U => Some('ऊ'),
        Token::RRi => Some('ऋ'),
        Token::RRI => Some('ॠ'),
        Token::LLi => Some('ऌ'),
        Token::LLI => Some('ॡ'),
        Token::e => Some('ऎ'),
        Token::E => Some('ए'),
        Token::ai => Some('ऐ'),
        Token::o => Some('ऒ'),
        Token::O => Some('ओ'),
        Token::au => Some('औ'),
        Token::k => Some('क'),
        Token::kh => Some('ख'),
        Token::g => Some('ग'),
        Token::gh => Some('घ'),
        Token::ng => Some('ङ'),
        Token::c => Some('च'),
        Token::ch => Some('छ'),
        Token::j => Some('ज'),
        Token::jh => Some('झ'),
        Token::ny => Some('ञ'),
        Token::T => Some('ट'),
        Token::Th => Some('ठ'),
        Token::D => Some('ड'),
        Token::Dh => Some('ढ'),
        Token::N => Some('ण'),
        Token::t => Some('त'),
        Token::th => Some('थ'),
        Token::d => Some('द'),
        Token::dh => Some('ध'),
        Token::n => Some('न'),
        Token::p => Some('प'),
        Token::ph => Some('फ'),
        Token::b => Some('ब'),
        Token::bh => Some('भ'),
        Token::m => Some('म'),
        Token::y => Some('य'),
        Token::r => Some('र'),
        Token::l => Some('ल'),
        Token::v => Some('व'),
        Token::sh => Some('श'),
        Token::Sh => Some('ष'),
        Token::s => Some('स'),
        Token::h => Some('ह'),
        Token::vm_A => Some('ा'),
        Token::vm_i => Some('ि'),
        Token::vm_I => Some('ी'),
        Token::vm_u => Some('ु'),
        Token::vm_U => Some('ू'),
        Token::vm_RRi => Some('ृ'),
        Token::vm_RRI => Some('ॄ'),
        Token::vm_LLi => Some('ॢ'),
        Token::vm_LLI => Some('ॣ'),
        Token::vm_e => Some('ॆ'),
        Token::vm_E => Some('े'),
        Token::vm_ai => Some('ै'),
        Token::vm_o => Some('ॊ'),
        Token::vm_O => Some('ो'),
        Token::vm_au => Some('ौ'),
        Token::cbindu__y => Some('ँ'),
        Token::M => Some('ं'),
        Token::H => Some('ः'),
        Token::virama => Some('्'),
        Token::svarita => Some('॑'),
        Token::anudaatta => Some('॒'),
        Token::danda => Some('।'),
        Token::dvidanda => Some('॥'),
        _ => None,
    }
}

/// The canonical Devanagari spelling of a token: its character where one
/// exists, a fixed placeholder otherwise.
pub open spec fn spec_deva_name(tok: TokenV) -> Seq<char> {
    match deva_char_of(tok) {
        Some(c) => seq![c],
        None => " _unk_ "@,
    }
}

/// Writes a token as its canonical Devanagari spelling.
pub fn enum_to_deva(token: &Token) -> (res: String)
    ensures
        res@ == spec_deva_name(token@),
{
    match token_to_deva_char(token) {
        Some(c) => char_to_string(c),
        None => String::from_str(" _unk_ "),
    }
}

impl Token {
    /// The canonical Devanagari spelling of this token.
    pub fn to_devanagari(&self) -> (res: String)
        ensures
            res@ == spec_deva_name(self@),
    {
        enum_to_deva(self)
    }
}

/// The token a canonical Devanagari spelling denotes: unrecognized or
/// multi-character input becomes a passthrough token carrying the input.
pub open spec fn spec_deva_to_enum(name: Seq<char>) -> TokenV {
    if name.len() == 1 {
        match token_of_deva_char(name[0]) {
            Some(tok) => tok,
            None => TokenV::Unknown(name),
        }
    } else {
        TokenV::Unknown(name)
    }
}

/// What a TOML document parses to: its tables in order, each with its
/// key/value entries in order, a string value kept as `Some` of its content
/// and a value of any other type recorded as `None`. Parsing is a function
/// of the text alone; a malformed document parses to nothing at all.
pub uninterp spec fn toml_tables_of(text: Seq<char>) -> Option<
    Seq<(Seq<char>, Seq<(Seq<char>, Option<Seq<char>>)>)>,
>;

/// Relies on toml::from_str: parses a TOML document into its top-level
/// tables of key/value entries. A document that is malformed, or that is not
/// a set of tables, is rejected as a whole. Tables and keys are collected in
/// their BTreeMap (key) order, so the result depends on the text alone.
#[verifier::external_body]
fn parse_toml_tables(text: &str) -> (res: Option<RawScriptMap>)
    ensures
        match res {
            Some(tables) => toml_tables_of(text@) == Some(tables.deep_view()),
            None => toml_tables_of(text@) is None,
        },
{
    let doc: std::collections::BTreeMap<String, std::collections::BTreeMap<String, toml::Value>> =
        match toml::from_str(text) { Ok(doc) => doc, Err(_) => return None };
    Some(doc.into_iter().map(|(name, group)|
        (name, group.into_iter().map(|(key, value)| (key, match value {
            toml::Value::String(glyph) => Some(glyph),
            toml::Value::Integer(_) => None,
            toml::Value::Float(_) => None,
            toml::Value::Boolean(_) => None,
            toml::Value::Datetime(_) => None,
            toml::Value::Array(_) => None,
            toml::Value::Table(_) => None,
        })).collect())
    ).collect())
}

/// The configuration text backing a script.
pub open spec fn spec_script_source(which: Script) -> Seq<char> {
    match which {
        Script::Devanagari => DEVANAGARI_TOML@,
        Script::Telugu => TELUGU_TOML@,
        Script::IastIso => IAST_ISO_TOML@,
    }
}

/// A script's parsed configuration, `None` where it does not parse.
pub open spec fn spec_raw_tables(which: Script) -> Option<
    Seq<(Seq<char>, Seq<(Seq<char>, Option<Seq<char>>)>)>,
> {
    toml_tables_of(spec_script_source(which))
}

/// Loads and parses the configuration of a script.
pub fn read_script(which: Script) -> (res: Result<RawScriptMap, ConfigError>)
    ensures
        match res {
            Ok(tables) => spec_raw_tables(which) == Some(tables.deep_view()),
            Err(_) => spec_raw_tables(which) is None,
        },
{
    let text = match which {
        Script::Devanagari => DEVANAGARI_TOML,
        Script::Telugu => TELUGU_TOML,
        Script::IastIso => IAST_ISO_TOML,
    };
    match parse_toml_tables(text) {
        Some(tables) => Ok(tables),
        None => Err(ConfigError),
    }
}

/// Converts the entries of one parsed category for one direction of use:
/// `name -> glyph` as declared for writing, `glyph -> name` inverted for
/// reading. `None` records a non-string value, which makes the whole
/// category invalid.
pub open spec fn spec_convert_group(
    entries: Seq<(Seq<char>, Option<Seq<char>>)>,
    invert: bool,
) -> Option<Seq<(Seq<char>, Seq<char>)>>
    decreases entries.len(),
{
    if entries.len() == 0 {
        Some(Seq::empty())
    } else {
        match (spec_convert_group(entries.drop_last(), invert), entries.last().1) {
            (Some(done), Some(value)) => Some(
                done.push(
                    if invert {
                        (value, entries.last().0)
                    } else {
                        (entries.last().0, value)
                    },
                ),
            ),
            _ => None,
        }
    }
}

/// One category of a script table, converted for one direction. An absent
/// category is an empty one; a non-string value makes it invalid.
pub open spec fn spec_scriptmap_group(
    tables: Seq<(Seq<char>, Seq<(Seq<char>, Option<Seq<char>>)>)>,
    name: Seq<char>,
    invert: bool,
) -> Option<Seq<(Seq<char>, Seq<char>)>> {
    match rlookup(tables, name) {
        None => Some(Seq::empty()),
        Some(entries) => spec_convert_group(entries, invert),
    }
}

proof fn lemma_convert_group_none(
    entries: Seq<(Seq<char>, Option<Seq<char>>)>,
    invert: bool,
    bad: int,
)
    requires
        0 <= bad < entries.len(),
        entries[bad].1 is None,
    ensures
        spec_convert_group(entries, invert) is None,
    decreases entries.len(),
{
    if bad == entries.len() - 1 {
    } else {
        lemma_convert_group_none(entries.drop_last(), invert, bad);
    }
}

/// Derives one category of a script map. The group may be absent (an empty
/// map results); a non-string value in it is a configuration error.
pub fn produce_scriptmap_group(script: &RawScriptMap, group_name: String, invert: bool) -> (res:
    Result<Vec<(String, String)>, ConfigError>)
    ensures
        match res {
            Ok(group) => spec_scriptmap_group(script.deep_view(), group_name@, invert) == Some(
                group.deep_view(),
            ),
            Err(_) => spec_scriptmap_group(script.deep_view(), group_name@, invert) is None,
        },
{
    let entries = match find_str_key(script, &group_name) {
        Some(entries) => entries,
        None => {
            let empty: Vec<(String, String)> = Vec::new();
            proof {
                assert(empty.deep_view() =~= Seq::<(Seq<char>, Seq<char>)>::empty());
            }
            return Ok(empty);
        },
    };
    let ghost all = entries.deep_view();
    let mut map: Vec<(String, String)> = Vec::new();
    for idx in 0..entries.len()
        invariant
            all == entries.deep_view(),
            rlookup(script.deep_view(), group_name@) == Some(all),
            spec_convert_group(all.take(idx as int), invert) == Some(map.deep_view()),
    {
        let entry = &entries[idx];
        proof {
            assert(all.take(idx + 1).last() == all[idx as int]);
            assert(all.take(idx + 1).drop_last() =~= all.take(idx as int));
        }
        match &entry.1 {
            Some(value) => {
                if invert {
                    map.push((value.clone(), entry.0.clone()));
                } else {
                    map.push((entry.0.clone(), value.clone()));
                }
            },
            None => {
                proof {
                    lemma_convert_group_none(all, invert, idx as int);
                }
                return Err(ConfigError);
            },
        }
        proof {
            assert(map.deep_view() =~= spec_convert_group(all.take(idx + 1), invert)->Some_0);
        }
    }
    proof {
        assert(all.take(entries@.len() as int) =~= all);
    }
    Ok(map)
}

proof fn lemma_convert_group_shape(
    entries: Seq<(Seq<char>, Option<Seq<char>>)>,
    invert: bool,
)
    requires
        spec_convert_group(entries, invert) is Some,
    ensures
        spec_convert_group(entries, invert)->Some_0.len() == entries.len(),
        forall|i: int|
            0 <= i < entries.len() ==> (#[trigger] entries[i]).1 is Some && spec_convert_group(
                entries,
                invert,
            )->Some_0[i] == if invert {
                (entries[i].1->Some_0, entries[i].0)
            } else {
                (entries[i].0, entries[i].1->Some_0)
            },
    decreases entries.len(),
{
    if entries.len() > 0 {
        lemma_convert_group_shape(entries.drop_last(), invert);
        let done = spec_convert_group(entries.drop_last(), invert)->Some_0;
        let full = spec_convert_group(entries, invert)->Some_0;
        assert(full == done.push(
            if invert {
                (entries.last().1->Some_0, entries.last().0)
            } else {
                (entries.last().0, entries.last().1->Some_0)
            },
        ));
        assert forall|i: int|
            0 <= i < entries.len() implies (#[trigger] entries[i]).1 is Some && spec_convert_group(
            entries,
            invert,
        )->Some_0[i] == if invert {
            (entries[i].1->Some_0, entries[i].0)
        } else {
            (entries[i].0, entries[i].1->Some_0)
        } by {
            if i < entries.len() - 1 {
                assert(entries.drop_last()[i] == entries[i]);
                assert(full[i] == done[i]);
            } else {
                assert(entries.last() == entries[i]);
            }
        }
    }
}

proof fn lemma_rlookup_witness<K, V>(entries: Seq<(K, V)>, key: K) -> (witness: int)
    requires
        rlookup(entries, key) is Some,
    ensures
        0 <= witness < entries.len(),
        entries[witness] == (key, rlookup(entries, key)->Some_0),
    decreases entries.len(),
{
    if entries.last().0 == key {
        entries.len() - 1
    } else {
        lemma_rlookup_witness(entries.drop_last(), key)
    }
}

proof fn lemma_rlookup_unique_key<K, V>(entries: Seq<(K, V)>, key: K, at: int)
    requires
        0 <= at < entries.len(),
        entries[at].0 == key,
        forall|j: int| 0 <= j < entries.len() && j != at ==> (#[trigger] entries[j]).0 != key,
    ensures
        rlookup(entries, key) == Some(entries[at].1),
    decreases entries.len(),
{
    if at == entries.len() - 1 {
    } else {
        lemma_rlookup_unique_key(entries.drop_last(), key, at);
    }
}

/// Inversion is idempotent up to retained pairs: take a category whose
/// declared phoneme names are distinct (as the keys of one TOML table always
/// are), derive its write view and its read view. Every `glyph -> name` pair
/// the read view retains, turned back around, is a pair of the write view:
/// `name -> glyph` is exactly what writing looks up. Equality of the whole
/// table can fail only where a glyph collision made the read view drop a
/// pair.
pub proof fn lemma_invert_recovers_pairs(
    entries: Seq<(Seq<char>, Option<Seq<char>>)>,
    glyph: Seq<char>,
    name: Seq<char>,
)
    requires
        spec_convert_group(entries, false) is Some,
        forall|i: int, j: int|
            0 <= i < entries.len() && 0 <= j < entries.len() && i != j ==> (
            #[trigger] entries[i]).0 != (#[trigger] entries[j]).0,
        rlookup(spec_convert_group(entries, true)->Some_0, glyph) == Some(name),
    ensures
        rlookup(spec_convert_group(entries, false)->Some_0, name) == Some(glyph),
{
    let write_view = spec_convert_group(entries, false)->Some_0;
    lemma_convert_group_shape(entries, false);
    assert(spec_convert_group(entries, true) is Some) by {
        if spec_convert_group(entries, true) is None {
            lemma_convert_group_total(entries);
        }
    }
    let read_view = spec_convert_group(entries, true)->Some_0;
    lemma_convert_group_shape(entries, true);
    let at = lemma_rlookup_witness(read_view, glyph);
    assert(read_view[at] == (entries[at].1->Some_0, entries[at].0));
    assert(entries[at].0 == name && entries[at].1 == Some(glyph));
    assert(write_view[at] == (name, glyph));
    assert forall|j: int|
        0 <= j < write_view.len() && j != at implies (#[trigger] write_view[j]).0 != name by {
        assert(write_view[j].0 == entries[j].0);
        assert(entries[j].0 != entries[at].0);
    }
    lemma_rlookup_unique_key(write_view, name, at);
}

proof fn lemma_convert_group_total(entries: Seq<(Seq<char>, Option<Seq<char>>)>)
    requires
        spec_convert_group(entries, false) is Some,
    ensures
        spec_convert_group(entries, true) is Some,
    decreases entries.len(),
{
    if entries.len() > 0 {
        lemma_convert_group_total(entries.drop_last());
    }
}

/// The declared categories in the fixed order in which they are processed
/// and in which glyph lookups consult them: vowels and vowel signs first,
/// then consonants, nasalization marks, the virama, accents, and symbols.
/// This order is data, never derived from unordered iteration, so it is
/// identical across runs.
pub open spec fn category_names() -> Seq<Seq<char>> {
    seq![
        "vowels"@,
        "vowel_marks"@,
        "consonants"@,
        "yogavaahas"@,
        "virama"@,
        "accents"@,
        "symbols"@,
    ]
}

/// The category order as a value.
pub fn category_names_exec() -> (names: Vec<String>)
    ensures
        names.deep_view() == category_names(),
{
    let mut names: Vec<String> = Vec::new();
    names.push(String::from_str("vowels"));
    names.push(String::from_str("vowel_marks"));
    names.push(String::from_str("consonants"));
    names.push(String::from_str("yogavaahas"));
    names.push(String::from_str("virama"));
    names.push(String::from_str("accents"));
    names.push(String::from_str("symbols"));
    proof {
        assert(names.deep_view() =~= category_names());
    }
    names
}

/// The script map over the given categories: each non-empty category in
/// order, under its name.
pub open spec fn spec_groups_for(
    tables: Seq<(Seq<char>, Seq<(Seq<char>, Option<Seq<char>>)>)>,
    names: Seq<Seq<char>>,
    invert: bool,
) -> Option<Seq<(Seq<char>, Seq<(Seq<char>, Seq<char>)>)>>
    decreases names.len(),
{
    if names.len() == 0 {
        Some(Seq::empty())
    } else {
        match (
            spec_groups_for(tables, names.drop_last(), invert),
            spec_scriptmap_group(tables, names.last(), invert),
        ) {
            (Some(done), Some(group)) => Some(
                if group.len() == 0 {
                    done
                } else {
                    done.push((names.last(), group))
                },
            ),
            _ => None,
        }
    }
}

proof fn lemma_groups_for_none(
    tables: Seq<(Seq<char>, Seq<(Seq<char>, Option<Seq<char>>)>)>,
    names: Seq<Seq<char>>,
    invert: bool,
    bad: int,
)
    requires
        0 <= bad < names.len(),
        spec_scriptmap_group(tables, names[bad], invert) is None,
    ensures
        spec_groups_for(tables, names, invert) is None,
    decreases names.len(),
{
    if bad == names.len() - 1 {
    } else {
        lemma_groups_for_none(tables, names.drop_last(), invert, bad);
    }
}

/// The complete script map for one direction of use. For the write view
/// (`invert` false) a missing `vowel_marks` category is inferred by copying
/// the `vowels` category verbatim; if `vowels` is missing too, the
/// configuration is invalid.
pub open spec fn spec_scriptmap(
    tables: Seq<(Seq<char>, Seq<(Seq<char>, Option<Seq<char>>)>)>,
    invert: bool,
) -> Option<Seq<(Seq<char>, Seq<(Seq<char>, Seq<char>)>)>> {
    match spec_groups_for(tables, category_names(), invert) {
        None => None,
        Some(groups) => if invert {
            Some(groups)
        } else if rlookup(groups, "vowel_marks"@) is Some {
            Some(groups)
        } else {
            match rlookup(groups, "vowels"@) {
                Some(vowel_group) => Some(groups.push(("vowel_marks"@, vowel_group))),
                None => None,
            }
        },
    }
}

/// An entry-for-entry copy of one category's map.
fn clone_entries(entries: &Vec<(String, String)>) -> (res: Vec<(String, String)>)
    ensures
        res.deep_view() == entries.deep_view(),
{
    let mut res: Vec<(String, String)> = Vec::new();
    for idx in 0..entries.len()
        invariant
            res@.len() == idx,
            forall|i: int| 0 <= i < idx ==> res@[i] == entries@[i],
    {
        let entry = &entries[idx];
        res.push((entry.0.clone(), entry.1.clone()));
    }
    proof {
        assert(res@ =~= entries@);
    }
    res
}

/// Builds the complete script map for one direction of use, the categories
/// processed in their fixed order.
pub fn produce_scriptmap(script: &RawScriptMap, invert: bool) -> (res: Result<
    ScriptMap,
    ConfigError,
>)
    ensures
        match res {
            Ok(groups) => spec_scriptmap(script.deep_view(), invert) == Some(groups.deep_view()),
            Err(_) => spec_scriptmap(script.deep_view(), invert) is None,
        },
{
    let names = category_names_exec();
    let mut groups: ScriptMap = Vec::new();
    for idx in 0..names.len()
        invariant
            names.deep_view() == category_names(),
            spec_groups_for(script.deep_view(), category_names().take(idx as int), invert)
                == Some(groups.deep_view()),
    {
        proof {
            assert(category_names().take(idx + 1).last() == category_names()[idx as int]);
            assert(category_names().take(idx + 1).drop_last() =~= category_names().take(
                idx as int,
            ));
        }
        let name = &names[idx];
        let group = match produce_scriptmap_group(script, name.clone(), invert) {
            Ok(group) => group,
            Err(err) => {
                proof {
                    lemma_groups_for_none(script.deep_view(), category_names(), invert, idx as int);
                }
                return Err(err);
            },
        };
        if group.len() > 0 {
            groups.push((name.clone(), group));
            proof {
                assert(groups.deep_view() =~= spec_groups_for(
                    script.deep_view(),
                    category_names().take(idx + 1),
                    invert,
                )->Some_0);
            }
        }
    }
    proof {
        assert(category_names().take(category_names().len() as int) =~= category_names());
    }
    if invert {
        return Ok(groups);
    }
    let marks_name = String::from_str("vowel_marks");
    match find_str_key(&groups, &marks_name) {
        Some(_) => Ok(groups),
        None => {
            let vowels_name = String::from_str("vowels");
            match find_str_key(&groups, &vowels_name) {
                Some(vowel_group) => {
                    let copy = clone_entries(vowel_group);
                    let ghost before = groups.deep_view();
                    groups.push((marks_name, copy));
                    proof {
                        assert(groups.deep_view() =~= before.push(
                            ("vowel_marks"@, rlookup(before, "vowels"@)->Some_0),
                        ));
                    }
                    Ok(groups)
                },
                None => Err(ConfigError),
            }
        },
    }
}

/// Reads a canonical Devanagari spelling back into a token.
pub fn deva_to_enum(input: String) -> (res: Token)
    ensures
        res@ == spec_deva_to_enum(input@),
{
    if input.as_str().unicode_len() == 1 {
        let c = input.as_str().get_char(0);
        proof {
            assert(input@ =~= seq![input@[0]]);
        }
        match deva_char_to_token(c) {
            Some(tok) => tok,
            None => Token::Unknown(input),
        }
    } else {
        Token::Unknown(input)
    }
}

} // verus!
