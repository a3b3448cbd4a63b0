//! The data model: phonemic tokens and their categories, script
//! identities, table type aliases, and the configuration error.

use vstd::prelude::*;

verus! {

/// The phoneme categories a script table declares. Every token belongs to
/// exactly one category, and the category decides how the phoneme is written.
#[derive(Clone, Copy, PartialEq, Eq, Structural, Debug)]
pub enum Category {
    Vowel,
    VowelMark,
    Consonant,
    Yogavaha,
    Virama,
    Accent,
    Symbol,
    Other,
}

/// A script-independent phonemic token. The variant names are canonical
/// phoneme names; `Unknown` carries a unit of the input verbatim so that
/// unrecognized codepoints pass through any conversion unchanged.
#[allow(non_camel_case_types)]
#[derive(PartialEq, Debug)]
pub enum Token {
    // Vowels
    a,
    A,
    i,
    I,
    u,
    U,
    RRi,
    RRI,
    LLi,
    LLI,
    e,
    E,
    ai,
    o,
    O,
    R,
    au,
    // Vowel marks
    vm_a,
    vm_A,
    vm_i,
    vm_I,
    vm_u,
    vm_U,
    vm_RRi,
    vm_RRI,
    vm_LLi,
    vm_LLI,
    vm_e,
    vm_E,
    vm_ai,
    vm_o,
    vm_O,
    vm_R,
    vm_au,
    // Yogavahas
    M,
    H,
    cbindu__y,
    // Symbols
    visarga,
    cbindu,
    danda,
    dvidanda,
    // Svaras
    anudaatta,
    udaatta,
    svarita,
    gm,
    gg,
    // Virama
    virama,
    // Consonants
    k,
    kh,
    g,
    gh,
    ng,
    c,
    ch,
    j,
    jh,
    ny,
    T,
    Th,
    D,
    Dh,
    N,
    t,
    th,
    d,
    dh,
    n,
    p,
    ph,
    b,
    bh,
    m,
    y,
    r,
    l,
    v,
    sh,
    Sh,
    s,
    h,
    L,
    // Others
    Unknown(String),
}

/// The mathematical model of a `Token`: identical except that the payload of
/// `Unknown` is the sequence of characters it carries.
#[allow(non_camel_case_types)]
pub enum TokenV {
    // Vowels
    a,
    A,
    i,
    I,
    u,
    U,
    RRi,
    RRI,
    LLi,
    LLI,
    e,
    E,
    ai,
    o,
    O,
    R,
    au,
    // Vowel marks
    vm_a,
    vm_A,
    vm_i,
    vm_I,
    vm_u,
    vm_U,
    vm_RRi,
    vm_RRI,
    vm_LLi,
    vm_LLI,
    vm_e,
    vm_E,
    vm_ai,
    vm_o,
    vm_O,
    vm_R,
    vm_au,
    // Yogavahas
    M,
    H,
    cbindu__y,
    // Symbols
    visarga,
    cbindu,
    danda,
    dvidanda,
    // Svaras
    anudaatta,
    udaatta,
    svarita,
    gm,
    gg,
    // Virama
    virama,
    // Consonants
    k,
    kh,
    g,
    gh,
    ng,
    c,
    ch,
    j,
    jh,
    ny,
    T,
    Th,
    D,
    Dh,
    N,
    t,
    th,
    d,
    dh,
    n,
    p,
    ph,
    b,
    bh,
    m,
    y,
    r,
    l,
    v,
    sh,
    Sh,
    s,
    h,
    L,
    // Others
    Unknown(Seq<char>),
}

impl View for Token {
    type V = TokenV;

    open spec fn view(&self) -> TokenV {
        match self {
            Token::a => TokenV::a,
            Token::A => TokenV::A,
            Token::i => TokenV::i,
            Token::I => TokenV::I,
            Token::u => TokenV::u,
            Token::U => TokenV::U,
            Token::RRi => TokenV::RRi,
            Token::RRI => TokenV::RRI,
            Token::LLi => TokenV::LLi,
            Token::LLI => TokenV::LLI,
            Token::e => TokenV::e,
            Token::E => TokenV::E,
            Token::ai => TokenV::ai,
            Token::o => TokenV::o,
            Token::O => TokenV::O,
            Token::R => TokenV::R,
            Token::au => TokenV::au,
            Token::vm_a => TokenV::vm_a,
            Token::vm_A => TokenV::vm_A,
            Token::vm_i => TokenV::vm_i,
            Token::vm_I => TokenV::vm_I,
            Token::vm_u => TokenV::vm_u,
            Token::vm_U => TokenV::vm_U,
            Token::vm_RRi => TokenV::vm_RRi,
            Token::vm_RRI => TokenV::vm_RRI,
            Token::vm_LLi => TokenV::vm_LLi,
            Token::vm_LLI => TokenV::vm_LLI,
            Token::vm_e => TokenV::vm_e,
            Token::vm_E => TokenV::vm_E,
            Token::vm_ai => TokenV::vm_ai,
            Token::vm_o => TokenV::vm_o,
            Token::vm_O => TokenV::vm_O,
            Token::vm_R => TokenV::vm_R,
            Token::vm_au => TokenV::vm_au,
            Token::M => TokenV::M,
            Token::H => TokenV::H,
            Token::cbindu__y => TokenV::cbindu__y,
            Token::visarga => TokenV::visarga,
            Token::cbindu => TokenV::cbindu,
            Token::danda => TokenV::danda,
            Token::dvidanda => TokenV::dvidanda,
            Token::anudaatta => TokenV::anudaatta,
            Token::udaatta => TokenV::udaatta,
            Token::svarita => TokenV::svarita,
            Token::gm => TokenV::gm,
            Token::gg => TokenV::gg,
            Token::virama => TokenV::virama,
            Token::k => TokenV::k,
            Token::kh => TokenV::kh,
            Token::g => TokenV::g,
            Token::gh => TokenV::gh,
            Token::ng => TokenV::ng,
            Token::c => TokenV::c,
            Token::ch => TokenV::ch,
            Token::j => TokenV::j,
            Token::jh => TokenV::jh,
            Token::ny => TokenV::ny,
            Token::T => TokenV::T,
            Token::Th => TokenV::Th,
            Token::D => TokenV::D,
            Token::Dh => TokenV::Dh,
            Token::N => TokenV::N,
            Token::t => TokenV::t,
            Token::th => TokenV::th,
            Token::d => TokenV::d,
            Token::dh => TokenV::dh,
            Token::n => TokenV::n,
            Token::p => TokenV::p,
            Token::ph => TokenV::ph,
            Token::b => TokenV::b,
            Token::bh => TokenV::bh,
            Token::m => TokenV::m,
            Token::y => TokenV::y,
            Token::r => TokenV::r,
            Token::l => TokenV::l,
            Token::v => TokenV::v,
            Token::sh => TokenV::sh,
            Token::Sh => TokenV::Sh,
            Token::s => TokenV::s,
            Token::h => TokenV::h,
            Token::L => TokenV::L,
            Token::Unknown(text) => TokenV::Unknown(text@),
        }
    }
}

impl DeepView for Token {
    type V = TokenV;

    open spec fn deep_view(&self) -> TokenV {
        self.view()
    }
}

impl Clone for Token {
    fn clone(&self) -> (res: Token)
        ensures
            res == *self,
    {
        match self {
            Token::a => Token::a,
            Token::A => Token::A,
            Token::i => Token::i,
            Token::I => Token::I,
            Token::u => Token::u,
            Token::U => Token::U,
            Token::RRi => Token::RRi,
            Token::RRI => Token::RRI,
            Token::LLi => Token::LLi,
            Token::LLI => Token::LLI,
            Token::e => Token::e,
            Token::E => Token::E,
            Token::ai => Token::ai,
            Token::o => Token::o,
            Token::O => Token::O,
            Token::R => Token::R,
            Token::au => Token::au,
            Token::vm_a => Token::vm_a,
            Token::vm_A => Token::vm_A,
            Token::vm_i => Token::vm_i,
            Token::vm_I => Token::vm_I,
            Token::vm_u => Token::vm_u,
            Token::vm_U => Token::vm_U,
            Token::vm_RRi => Token::vm_RRi,
            Token::vm_RRI => Token::vm_RRI,
            Token::vm_LLi => Token::vm_LLi,
            Token::vm_LLI => Token::vm_LLI,
            Token::vm_e => Token::vm_e,
            Token::vm_E => Token::vm_E,
            Token::vm_ai => Token::vm_ai,
            Token::vm_o => Token::vm_o,
            Token::vm_O => Token::vm_O,
            Token::vm_R => Token::vm_R,
            Token::vm_au => Token::vm_au,
            Token::M => Token::M,
            Token::H => Token::H,
            Token::cbindu__y => Token::cbindu__y,
            Token::visarga => Token::visarga,
            Token::cbindu => Token::cbindu,
            Token::danda => Token::danda,
            Token::dvidanda => Token::dvidanda,
            Token::anudaatta => Token::anudaatta,
            Token::udaatta => Token::udaatta,
            Token::svarita => Token::svarita,
            Token::gm => Token::gm,
            Token::gg => Token::gg,
            Token::virama => Token::virama,
            Token::k => Token::k,
            Token::kh => Token::kh,
            Token::g => Token::g,
            Token::gh => Token::gh,
            Token::ng => Token::ng,
            Token::c => Token::c,
            Token::ch => Token::ch,
            Token::j => Token::j,
            Token::jh => Token::jh,
            Token::ny => Token::ny,
            Token::T => Token::T,
            Token::Th => Token::Th,
            Token::D => Token::D,
            Token::Dh => Token::Dh,
            Token::N => Token::N,
            Token::t => Token::t,
            Token::th => Token::th,
            Token::d => Token::d,
            Token::dh => Token::dh,
            Token::n => Token::n,
            Token::p => Token::p,
            Token::ph => Token::ph,
            Token::b => Token::b,
            Token::bh => Token::bh,
            Token::m => Token::m,
            Token::y => Token::y,
            Token::r => Token::r,
            Token::l => Token::l,
            Token::v => Token::v,
            Token::sh => Token::sh,
            Token::Sh => Token::Sh,
            Token::s => Token::s,
            Token::h => Token::h,
            Token::L => Token::L,
            Token::Unknown(text) => Token::Unknown(text.clone()),
        }
    }
}

impl TokenV {
    /// The category a token belongs to.
    pub open spec fn category(self) -> Category {
        match self {
            TokenV::a | TokenV::A | TokenV::i | TokenV::I | TokenV::u | TokenV::U
            | TokenV::RRi | TokenV::RRI | TokenV::LLi | TokenV::LLI | TokenV::e | TokenV::E
            | TokenV::ai | TokenV::o | TokenV::O | TokenV::R | TokenV::au => Category::Vowel,
            TokenV::vm_a | TokenV::vm_A | TokenV::vm_i | TokenV::vm_I | TokenV::vm_u
            | TokenV::vm_U | TokenV::vm_RRi | TokenV::vm_RRI | TokenV::vm_LLi | TokenV::vm_LLI
            | TokenV::vm_e | TokenV::vm_E | TokenV::vm_ai | TokenV::vm_o | TokenV::vm_O
            | TokenV::vm_R | TokenV::vm_au => Category::VowelMark,
            TokenV::M | TokenV::H | TokenV::cbindu__y => Category::Yogavaha,
            TokenV::visarga | TokenV::cbindu | TokenV::danda | TokenV::dvidanda => Category::Symbol,
            TokenV::anudaatta | TokenV::udaatta | TokenV::svarita | TokenV::gm | TokenV::gg => Category::Accent,
            TokenV::virama => Category::Virama,
            TokenV::Unknown(_) => Category::Other,
            _ => Category::Consonant,
        }
    }

    pub open spec fn is_vowel(self) -> bool {
        self.category() == Category::Vowel
    }

    pub open spec fn is_vowel_mark(self) -> bool {
        self.category() == Category::VowelMark
    }

    pub open spec fn is_yogavaha(self) -> bool {
        self.category() == Category::Yogavaha
    }

    pub open spec fn is_consonant(self) -> bool {
        self.category() == Category::Consonant
    }

    pub open spec fn is_virama(self) -> bool {
        self.category() == Category::Virama
    }

    pub open spec fn is_accent(self) -> bool {
        self.category() == Category::Accent
    }

    /// The dependent (vowel-sign) form of an independent vowel; any other
    /// token is left unchanged.
    pub open spec fn mark_of_vowel(self) -> TokenV {
        match self {
            TokenV::a => TokenV::vm_a,
            TokenV::A => TokenV::vm_A,
            TokenV::i => TokenV::vm_i,
            TokenV::I => TokenV::vm_I,
            TokenV::u => TokenV::vm_u,
            TokenV::U => TokenV::vm_U,
            TokenV::RRi => TokenV::vm_RRi,
            TokenV::RRI => TokenV::vm_RRI,
            TokenV::LLi => TokenV::vm_LLi,
            TokenV::LLI => TokenV::vm_LLI,
            TokenV::e => TokenV::vm_e,
            TokenV::E => TokenV::vm_E,
            TokenV::ai => TokenV::vm_ai,
            TokenV::o => TokenV::vm_o,
            TokenV::O => TokenV::vm_O,
            TokenV::R => TokenV::vm_R,
            TokenV::au => TokenV::vm_au,
            _ => self,
        }
    }

    /// The independent form of a vowel sign; any other token is left
    /// unchanged.
    pub open spec fn vowel_of_mark(self) -> TokenV {
        match self {
            TokenV::vm_a => TokenV::a,
            TokenV::vm_A => TokenV::A,
            TokenV::vm_i => TokenV::i,
            TokenV::vm_I => TokenV::I,
            TokenV::vm_u => TokenV::u,
            TokenV::vm_U => TokenV::U,
            TokenV::vm_RRi => TokenV::RRi,
            TokenV::vm_RRI => TokenV::RRI,
            TokenV::vm_LLi => TokenV::LLi,
            TokenV::vm_LLI => TokenV::LLI,
            TokenV::vm_e => TokenV::e,
            TokenV::vm_E => TokenV::E,
            TokenV::vm_ai => TokenV::ai,
            TokenV::vm_o => TokenV::o,
            TokenV::vm_O => TokenV::O,
            TokenV::vm_R => TokenV::R,
            TokenV::vm_au => TokenV::au,
            _ => self,
        }
    }
}

impl Token {
    /// The category this token belongs to.
    pub fn category(&self) -> (cat: Category)
        ensures
            cat == self@.category(),
    {
        match self {
            Token::a | Token::A | Token::i | Token::I | Token::u | Token::U
            | Token::RRi | Token::RRI | Token::LLi | Token::LLI | Token::e | Token::E
            | Token::ai | Token::o | Token::O | Token::R | Token::au => Category::Vowel,
            Token::vm_a | Token::vm_A | Token::vm_i | Token::vm_I | Token::vm_u
            | Token::vm_U | Token::vm_RRi | Token::vm_RRI | Token::vm_LLi | Token::vm_LLI
            | Token::vm_e | Token::vm_E | Token::vm_ai | Token::vm_o | Token::vm_O
            | Token::vm_R | Token::vm_au => Category::VowelMark,
            Token::M | Token::H | Token::cbindu__y => Category::Yogavaha,
            Token::visarga | Token::cbindu | Token::danda | Token::dvidanda => Category::Symbol,
            Token::anudaatta | Token::udaatta | Token::svarita | Token::gm | Token::gg => Category::Accent,
            Token::virama => Category::Virama,
            Token::Unknown(_) => Category::Other,
            _ => Category::Consonant,
        }
    }

    pub fn is_vowel(&self) -> (res: bool)
        ensures
            res == self@.is_vowel(),
    {
        match self.category() {
            Category::Vowel => true,
            _ => false,
        }
    }

    pub fn is_vowel_mark(&self) -> (res: bool)
        ensures
            res == self@.is_vowel_mark(),
    {
        match self.category() {
            Category::VowelMark => true,
            _ => false,
        }
    }

    pub fn is_yogavaha(&self) -> (res: bool)
        ensures
            res == self@.is_yogavaha(),
    {
        match self.category() {
            Category::Yogavaha => true,
            _ => false,
        }
    }

    pub fn is_consonant(&self) -> (res: bool)
        ensures
            res == self@.is_consonant(),
    {
        match self.category() {
            Category::Consonant => true,
            _ => false,
        }
    }

    pub fn is_virama(&self) -> (res: bool)
        ensures
            res == self@.is_virama(),
    {
        match self.category() {
            Category::Virama => true,
            _ => false,
        }
    }

    pub fn is_accent(&self) -> (res: bool)
        ensures
            res == self@.is_accent(),
    {
        match self.category() {
            Category::Accent => true,
            _ => false,
        }
    }

    /// The dependent (vowel-sign) form of an independent vowel; any other
    /// token is returned unchanged.
    pub fn to_vowel_mark(&self) -> (res: Token)
        ensures
            res@ == self@.mark_of_vowel(),
    {
        match self {
            Token::a => Token::vm_a,
            Token::A => Token::vm_A,
            Token::i => Token::vm_i,
            Token::I => Token::vm_I,
            Token::u => Token::vm_u,
            Token::U => Token::vm_U,
            Token::RRi => Token::vm_RRi,
            Token::RRI => Token::vm_RRI,
            Token::LLi => Token::vm_LLi,
            Token::LLI => Token::vm_LLI,
            Token::e => Token::vm_e,
            Token::E => Token::vm_E,
            Token::ai => Token::vm_ai,
            Token::o => Token::vm_o,
            Token::O => Token::vm_O,
            Token::R => Token::vm_R,
            Token::au => Token::vm_au,
            _ => self.clone(),
        }
    }

    /// The independent form of a vowel sign; any other token is returned
    /// unchanged.
    pub fn to_independent_vowel(&self) -> (res: Token)
        ensures
            res@ == self@.vowel_of_mark(),
    {
        match self {
            Token::vm_a => Token::a,
            Token::vm_A => Token::A,
            Token::vm_i => Token::i,
            Token::vm_I => Token::I,
            Token::vm_u => Token::u,
            Token::vm_U => Token::U,
            Token::vm_RRi => Token::RRi,
            Token::vm_RRI => Token::RRI,
            Token::vm_LLi => Token::LLi,
            Token::vm_LLI => Token::LLI,
            Token::vm_e => Token::e,
            Token::vm_E => Token::E,
            Token::vm_ai => Token::ai,
            Token::vm_o => Token::o,
            Token::vm_O => Token::O,
            Token::vm_R => Token::R,
            Token::vm_au => Token::au,
            _ => self.clone(),
        }
    }
}

/// The scripts this crate ships tables for. `is_abugida` orthography is the
/// one attribute of a script that tokenizing and rendering consult.
#[derive(PartialEq, Eq, Structural, Debug, Clone, Copy)]
pub enum Script {
    Devanagari,
    Telugu,
    IastIso,
}

impl Script {
    pub open spec fn spec_is_roman(self) -> bool {
        self == Script::IastIso
    }

    pub fn is_brahmic(&self) -> (res: bool)
        ensures
            res == !self.spec_is_roman(),
    {
        !self.is_roman()
    }

    pub fn is_roman(&self) -> (res: bool)
        ensures
            res == self.spec_is_roman(),
    {
        match self {
            Script::IastIso => true,
            _ => false,
        }
    }
}

/// A script's configuration as parsed: named categories, each a list of
/// `phoneme name = value` entries in a fixed order. A `Some` value is a
/// string (the glyph); `None` records a value of any other type, which the
/// table builder rejects.
pub type RawScriptMap = Vec<(String, Vec<(String, Option<String>)>)>;

/// A script's table for one direction: named categories, each a list of
/// key/glyph pairs. Writing uses `phoneme name -> glyph`; reading uses the
/// inverted `glyph -> phoneme name` lists.
pub type ScriptMap = Vec<(String, Vec<(String, String)>)>;

/// A script table could not be loaded: the script name is not recognized or
/// its backing configuration is malformed.
#[derive(Debug, PartialEq, Eq, Structural)]
pub struct ConfigError;

/// The script a lowercase identifier names, if any.
pub open spec fn spec_script_of_name(name: Seq<char>) -> Option<Script> {
    if name == "devanagari"@ {
        Some(Script::Devanagari)
    } else if name == "telugu"@ {
        Some(Script::Telugu)
    } else if name == "iast_iso"@ {
        Some(Script::IastIso)
    } else {
        None
    }
}

impl Script {
    /// Parses a script identity. Only the case-sensitive lowercase names
    /// `devanagari`, `telugu` and `iast_iso` are accepted.
    pub fn from_name(name: &str) -> (res: Result<Script, ConfigError>)
        ensures
            match res {
                Ok(script) => spec_script_of_name(name@) == Some(script),
                Err(_) => spec_script_of_name(name@) is None,
            },
    {
        let text = name.to_owned();
        if text == String::from_str("devanagari") {
            Ok(Script::Devanagari)
        } else if text == String::from_str("telugu") {
            Ok(Script::Telugu)
        } else if text == String::from_str("iast_iso") {
            Ok(Script::IastIso)
        } else {
            Err(ConfigError)
        }
    }
}

} // verus!
