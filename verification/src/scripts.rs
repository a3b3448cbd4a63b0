//! Script-level views: the read view a tokenizer consults, built by
//! inverting a script's table, and the direct glyph map between two scripts.

use vstd::prelude::*;

use crate::lexer::{
    category_names, category_names_exec, deva_char_to_token, find_char_key, find_str_key, rlookup,
    spec_raw_tables, spec_scriptmap, token_of_deva_char,
};
use crate::lexer;
use crate::types::{ConfigError, RawScriptMap, Script, ScriptMap, Token, TokenV};

verus! {

/// The scripts with shipped tables, named as configuration names them.
#[derive(Debug, Clone, Copy, PartialEq, Eq, Structural)]
pub enum ScriptName {
    Telugu,
    IastIso,
    Devanagari,
}

impl ScriptName {
    pub open spec fn spec_script(self) -> Script {
        match self {
            ScriptName::Telugu => Script::Telugu,
            ScriptName::IastIso => Script::IastIso,
            ScriptName::Devanagari => Script::Devanagari,
        }
    }

    pub fn to_script(&self) -> (res: Script)
        ensures
            res == self.spec_script(),
    {
        match self {
            ScriptName::Telugu => Script::Telugu,
            ScriptName::IastIso => Script::IastIso,
            ScriptName::Devanagari => Script::Devanagari,
        }
    }

    /// The name of a script.
    pub fn of_script(which: Script) -> (res: ScriptName)
        ensures
            res.spec_script() == which,
    {
        match which {
            Script::Telugu => ScriptName::Telugu,
            Script::IastIso => ScriptName::IastIso,
            Script::Devanagari => ScriptName::Devanagari,
        }
    }
}

/// A script's map for one direction of use, over its parsed configuration.
pub open spec fn spec_scriptmap_of(which: Script, invert: bool) -> Option<
    Seq<(Seq<char>, Seq<(Seq<char>, Seq<char>)>)>,
> {
    match spec_raw_tables(which) {
        None => None,
        Some(tables) => spec_scriptmap(tables, invert),
    }
}

/// Loads and parses the configuration of a script.
pub fn read_script(which: &ScriptName) -> (res: Result<RawScriptMap, ConfigError>)
    ensures
        match res {
            Ok(tables) => spec_raw_tables(which.spec_script()) == Some(tables.deep_view()),
            Err(_) => spec_raw_tables(which.spec_script()) is None,
        },
{
    lexer::read_script(which.to_script())
}

/// The read view of a script: each category inverted to map the script's own
/// glyphs back to canonical Devanagari names.
pub fn script_to_deva(which: &ScriptName) -> (res: Result<ScriptMap, ConfigError>)
    ensures
        match res {
            Ok(groups) => spec_scriptmap_of(which.spec_script(), true) == Some(groups.deep_view()),
            Err(_) => spec_scriptmap_of(which.spec_script(), true) is None,
        },
{
    let tables = match read_script(which) {
        Ok(tables) => tables,
        Err(err) => {
            return Err(err);
        },
    };
    lexer::produce_scriptmap(&tables, true)
}

/// The mathematical model of a `TokenMap`: for each category, the glyph
/// characters it recognizes and the token each denotes.
pub struct TokenMapV {
    pub vowels: Seq<(char, TokenV)>,
    pub vowel_marks: Seq<(char, TokenV)>,
    pub accents: Seq<(char, TokenV)>,
    pub consonants: Seq<(char, TokenV)>,
    pub yogavaahas: Seq<(char, TokenV)>,
    pub symbols: Seq<(char, TokenV)>,
    pub virama: Seq<(char, TokenV)>,
}

impl TokenMapV {
    /// Resolves one unit character, searching the categories in their fixed
    /// precedence order.
    pub open spec fn lookup(self, unit: char) -> Option<TokenV> {
        if rlookup(self.vowels, unit) is Some {
            rlookup(self.vowels, unit)
        } else if rlookup(self.vowel_marks, unit) is Some {
            rlookup(self.vowel_marks, unit)
        } else if rlookup(self.consonants, unit) is Some {
            rlookup(self.consonants, unit)
        } else if rlookup(self.yogavaahas, unit) is Some {
            rlookup(self.yogavaahas, unit)
        } else if rlookup(self.virama, unit) is Some {
            rlookup(self.virama, unit)
        } else if rlookup(self.accents, unit) is Some {
            rlookup(self.accents, unit)
        } else {
            rlookup(self.symbols, unit)
        }
    }
}

/// The read view a tokenizer consults: for each category, the source
/// script's glyph characters and the token each denotes.
#[derive(Debug)]
pub struct TokenMap {
    pub vowels: Vec<(char, Token)>,
    pub vowel_marks: Vec<(char, Token)>,
    pub accents: Vec<(char, Token)>,
    pub consonants: Vec<(char, Token)>,
    pub yogavaahas: Vec<(char, Token)>,
    pub symbols: Vec<(char, Token)>,
    pub virama: Vec<(char, Token)>,
}

impl View for TokenMap {
    type V = TokenMapV;

    open spec fn view(&self) -> TokenMapV {
        TokenMapV {
            vowels: self.vowels.deep_view(),
            vowel_marks: self.vowel_marks.deep_view(),
            accents: self.accents.deep_view(),
            consonants: self.consonants.deep_view(),
            yogavaahas: self.yogavaahas.deep_view(),
            symbols: self.symbols.deep_view(),
            virama: self.virama.deep_view(),
        }
    }
}

impl TokenMap {
    /// An empty read view.
    pub fn new() -> (res: TokenMap)
        ensures
            res@.vowels == Seq::<(char, TokenV)>::empty(),
            res@.vowel_marks == Seq::<(char, TokenV)>::empty(),
            res@.accents == Seq::<(char, TokenV)>::empty(),
            res@.consonants == Seq::<(char, TokenV)>::empty(),
            res@.yogavaahas == Seq::<(char, TokenV)>::empty(),
            res@.symbols == Seq::<(char, TokenV)>::empty(),
            res@.virama == Seq::<(char, TokenV)>::empty(),
    {
        let res = TokenMap {
            vowels: Vec::new(),
            vowel_marks: Vec::new(),
            accents: Vec::new(),
            consonants: Vec::new(),
            yogavaahas: Vec::new(),
            symbols: Vec::new(),
            virama: Vec::new(),
        };
        proof {
            assert(res@.vowels =~= Seq::<(char, TokenV)>::empty());
            assert(res@.vowel_marks =~= Seq::<(char, TokenV)>::empty());
            assert(res@.accents =~= Seq::<(char, TokenV)>::empty());
            assert(res@.consonants =~= Seq::<(char, TokenV)>::empty());
            assert(res@.yogavaahas =~= Seq::<(char, TokenV)>::empty());
            assert(res@.symbols =~= Seq::<(char, TokenV)>::empty());
            assert(res@.virama =~= Seq::<(char, TokenV)>::empty());
        }
        res
    }

    /// Resolves one unit character, searching the categories in their fixed
    /// precedence order.
    pub fn lookup(&self, unit: char) -> (res: Option<Token>)
        ensures
            res.deep_view() == self@.lookup(unit),
    {
        if let Some(tok) = find_char_key(&self.vowels, unit) {
            return Some(tok.clone());
        }
        if let Some(tok) = find_char_key(&self.vowel_marks, unit) {
            return Some(tok.clone());
        }
        if let Some(tok) = find_char_key(&self.consonants, unit) {
            return Some(tok.clone());
        }
        if let Some(tok) = find_char_key(&self.yogavaahas, unit) {
            return Some(tok.clone());
        }
        if let Some(tok) = find_char_key(&self.virama, unit) {
            return Some(tok.clone());
        }
        if let Some(tok) = find_char_key(&self.accents, unit) {
            return Some(tok.clone());
        }
        match find_char_key(&self.symbols, unit) {
            Some(tok) => Some(tok.clone()),
            None => None,
        }
    }
}

/// The token an inverted entry's canonical name denotes, if the entry can
/// take part in reading. The name's first character decides; in the
/// `vowel_marks` category a vowel name denotes the vowel's dependent form,
/// and any other name is skipped.
pub open spec fn spec_entry_token(name: Seq<char>, marks: bool) -> Option<TokenV> {
    if name.len() == 0 {
        None
    } else {
        match token_of_deva_char(name[0]) {
            None => None,
            Some(tok) => if marks {
                if tok.is_vowel() {
                    Some(tok.mark_of_vowel())
                } else {
                    None
                }
            } else {
                Some(tok)
            },
        }
    }
}

/// The readable entries of one inverted category: single-character glyphs
/// whose canonical name denotes a token. Units are single codepoints, so a
/// longer glyph can never be matched and is left out.
pub open spec fn spec_read_entries(group: Seq<(Seq<char>, Seq<char>)>, marks: bool) -> Seq<
    (char, TokenV),
>
    decreases group.len(),
{
    if group.len() == 0 {
        Seq::empty()
    } else {
        let done = spec_read_entries(group.drop_last(), marks);
        let entry = group.last();
        if entry.0.len() == 1 {
            match spec_entry_token(entry.1, marks) {
                Some(tok) => done.push((entry.0[0], tok)),
                None => done,
            }
        } else {
            done
        }
    }
}

/// One category of an inverted script map, or nothing where the script does
/// not declare the category.
pub open spec fn group_or_empty(
    groups: Seq<(Seq<char>, Seq<(Seq<char>, Seq<char>)>)>,
    name: Seq<char>,
) -> Seq<(Seq<char>, Seq<char>)> {
    match rlookup(groups, name) {
        Some(group) => group,
        None => Seq::empty(),
    }
}

/// The read view of a script, one category map per declared category.
pub open spec fn spec_token_map(which: Script) -> Option<TokenMapV> {
    match spec_scriptmap_of(which, true) {
        None => None,
        Some(groups) => Some(
            TokenMapV {
                vowels: spec_read_entries(group_or_empty(groups, "vowels"@), false),
                vowel_marks: spec_read_entries(group_or_empty(groups, "vowel_marks"@), true),
                accents: spec_read_entries(group_or_empty(groups, "accents"@), false),
                consonants: spec_read_entries(group_or_empty(groups, "consonants"@), false),
                yogavaahas: spec_read_entries(group_or_empty(groups, "yogavaahas"@), false),
                symbols: spec_read_entries(group_or_empty(groups, "symbols"@), false),
                virama: spec_read_entries(group_or_empty(groups, "virama"@), false),
            },
        ),
    }
}

/// Builds the readable entries of one inverted category.
fn read_group_entries(groups: &ScriptMap, name: &String, marks: bool) -> (res: Vec<(char, Token)>)
    ensures
        res.deep_view() == spec_read_entries(group_or_empty(groups.deep_view(), name@), marks),
{
    let group = match find_str_key(groups, name) {
        Some(group) => group,
        None => {
            let empty: Vec<(char, Token)> = Vec::new();
            proof {
                assert(empty.deep_view() =~= spec_read_entries(
                    group_or_empty(groups.deep_view(), name@),
                    marks,
                ));
            }
            return empty;
        },
    };
    let ghost all = group.deep_view();
    let mut res: Vec<(char, Token)> = Vec::new();
    for idx in 0..group.len()
        invariant
            all == group.deep_view(),
            res.deep_view() == spec_read_entries(all.take(idx as int), marks),
    {
        let entry = &group[idx];
        proof {
            assert(all.take(idx + 1).last() == all[idx as int]);
            assert(all.take(idx + 1).drop_last() =~= all.take(idx as int));
        }
        let mut chosen: Option<Token> = None;
        if entry.0.as_str().unicode_len() == 1 {
            if entry.1.as_str().unicode_len() >= 1 {
                let name_char = entry.1.as_str().get_char(0);
                match deva_char_to_token(name_char) {
                    Some(tok) => {
                        if marks {
                            if tok.is_vowel() {
                                chosen = Some(tok.to_vowel_mark());
                            }
                        } else {
                            chosen = Some(tok);
                        }
                    },
                    None => {},
                }
            }
            match chosen {
                Some(tok) => {
                    let glyph_char = entry.0.as_str().get_char(0);
                    res.push((glyph_char, tok));
                },
                None => {},
            }
        }
        proof {
            assert(res.deep_view() =~= spec_read_entries(all.take(idx + 1), marks));
        }
    }
    proof {
        assert(all.take(group@.len() as int) =~= all);
    }
    res
}

/// One category of the direct `source glyph -> target glyph` map: each
/// source glyph whose canonical name the target declares, paired with the
/// target's glyph for it.
pub open spec fn spec_compose_entries(
    src: Seq<(Seq<char>, Seq<char>)>,
    dst: Seq<(Seq<char>, Seq<char>)>,
) -> Seq<(Seq<char>, Seq<char>)>
    decreases src.len(),
{
    if src.len() == 0 {
        Seq::empty()
    } else {
        let done = spec_compose_entries(src.drop_last(), dst);
        match rlookup(dst, src.last().1) {
            Some(out_glyph) => done.push((src.last().0, out_glyph)),
            None => done,
        }
    }
}

/// The direct glyph map over the given categories, non-empty ones only.
pub open spec fn spec_compose_groups(
    read_view: Seq<(Seq<char>, Seq<(Seq<char>, Seq<char>)>)>,
    write_view: Seq<(Seq<char>, Seq<(Seq<char>, Seq<char>)>)>,
    names: Seq<Seq<char>>,
) -> Seq<(Seq<char>, Seq<(Seq<char>, Seq<char>)>)>
    decreases names.len(),
{
    if names.len() == 0 {
        Seq::empty()
    } else {
        let done = spec_compose_groups(read_view, write_view, names.drop_last());
        let composed = spec_compose_entries(
            group_or_empty(read_view, names.last()),
            group_or_empty(write_view, names.last()),
        );
        if composed.len() == 0 {
            done
        } else {
            done.push((names.last(), composed))
        }
    }
}

/// The direct map between two scripts, or nothing where either table does
/// not load.
pub open spec fn spec_map_input_to_output(input: Script, output: Script) -> Option<
    Seq<(Seq<char>, Seq<(Seq<char>, Seq<char>)>)>,
> {
    match (spec_scriptmap_of(input, true), spec_scriptmap_of(output, false)) {
        (Some(read_view), Some(write_view)) => Some(
            spec_compose_groups(read_view, write_view, category_names()),
        ),
        _ => None,
    }
}

proof fn lemma_compose_empty_dst(src: Seq<(Seq<char>, Seq<char>)>)
    ensures
        spec_compose_entries(src, Seq::empty()) == Seq::<(Seq<char>, Seq<char>)>::empty(),
    decreases src.len(),
{
    if src.len() > 0 {
        lemma_compose_empty_dst(src.drop_last());
    }
}

/// Composes one category: source glyphs to target glyphs via their shared
/// canonical names.
fn compose_entries(src: &Vec<(String, String)>, dst: &Vec<(String, String)>) -> (res: Vec<
    (String, String),
>)
    ensures
        res.deep_view() == spec_compose_entries(src.deep_view(), dst.deep_view()),
{
    let ghost all = src.deep_view();
    let mut res: Vec<(String, String)> = Vec::new();
    for idx in 0..src.len()
        invariant
            all == src.deep_view(),
            res.deep_view() == spec_compose_entries(all.take(idx as int), dst.deep_view()),
    {
        let entry = &src[idx];
        proof {
            assert(all.take(idx + 1).last() == all[idx as int]);
            assert(all.take(idx + 1).drop_last() =~= all.take(idx as int));
        }
        match find_str_key(dst, &entry.1) {
            Some(out_glyph) => {
                res.push((entry.0.clone(), out_glyph.clone()));
            },
            None => {},
        }
        proof {
            assert(res.deep_view() =~= spec_compose_entries(all.take(idx + 1), dst.deep_view()));
        }
    }
    proof {
        assert(all.take(src@.len() as int) =~= all);
    }
    res
}

/// The direct `source glyph -> target glyph` map between two scripts, one
/// group per category both sides know.
pub fn map_input_to_output(input: &ScriptName, output: &ScriptName) -> (res: Result<
    ScriptMap,
    ConfigError,
>)
    ensures
        match res {
            Ok(groups) => spec_map_input_to_output(input.spec_script(), output.spec_script())
                == Some(groups.deep_view()),
            Err(_) => spec_map_input_to_output(input.spec_script(), output.spec_script())
                is None,
        },
{
    let read_view = match script_to_deva(input) {
        Ok(groups) => groups,
        Err(err) => {
            return Err(err);
        },
    };
    let tables = match lexer::read_script(output.to_script()) {
        Ok(tables) => tables,
        Err(err) => {
            return Err(err);
        },
    };
    let write_view = match lexer::produce_scriptmap(&tables, false) {
        Ok(groups) => groups,
        Err(err) => {
            return Err(err);
        },
    };
    let ghost rv = read_view.deep_view();
    let ghost wv = write_view.deep_view();
    let names = category_names_exec();
    let mut groups: ScriptMap = Vec::new();
    for idx in 0..names.len()
        invariant
            rv == read_view.deep_view(),
            wv == write_view.deep_view(),
            names.deep_view() == category_names(),
            groups.deep_view() == spec_compose_groups(rv, wv, category_names().take(idx as int)),
    {
        proof {
            assert(category_names().take(idx + 1).last() == category_names()[idx as int]);
            assert(category_names().take(idx + 1).drop_last() =~= category_names().take(
                idx as int,
            ));
        }
        let name = &names[idx];
        let composed: Vec<(String, String)> = match find_str_key(&read_view, name) {
            None => {
                let empty: Vec<(String, String)> = Vec::new();
                proof {
                    assert(empty.deep_view() =~= spec_compose_entries(
                        group_or_empty(rv, name@),
                        group_or_empty(wv, name@),
                    ));
                }
                empty
            },
            Some(src_group) => {
                match find_str_key(&write_view, name) {
                    None => {
                        let empty: Vec<(String, String)> = Vec::new();
                        proof {
                            lemma_compose_empty_dst(src_group.deep_view());
                            assert(empty.deep_view() =~= spec_compose_entries(
                                group_or_empty(rv, name@),
                                group_or_empty(wv, name@),
                            ));
                        }
                        empty
                    },
                    Some(dst_group) => compose_entries(src_group, dst_group),
                }
            },
        };
        if composed.len() > 0 {
            groups.push((name.clone(), composed));
        }
        proof {
            assert(groups.deep_view() =~= spec_compose_groups(
                rv,
                wv,
                category_names().take(idx + 1),
            ));
        }
    }
    proof {
        assert(category_names().take(category_names().len() as int) =~= category_names());
    }
    Ok(groups)
}

/// Builds the read view of a script: its inverted table, each category's
/// single-character glyphs mapped to the token their canonical name denotes.
pub fn mapping_character_to_token(which: &ScriptName) -> (res: Result<TokenMap, ConfigError>)
    ensures
        match res {
            Ok(map) => spec_token_map(which.spec_script()) == Some(map@),
            Err(_) => spec_token_map(which.spec_script()) is None,
        },
{
    let groups = match script_to_deva(which) {
        Ok(groups) => groups,
        Err(err) => {
            return Err(err);
        },
    };
    let map = TokenMap {
        vowels: read_group_entries(&groups, &String::from_str("vowels"), false),
        vowel_marks: read_group_entries(&groups, &String::from_str("vowel_marks"), true),
        accents: read_group_entries(&groups, &String::from_str("accents"), false),
        consonants: read_group_entries(&groups, &String::from_str("consonants"), false),
        yogavaahas: read_group_entries(&groups, &String::from_str("yogavaahas"), false),
        symbols: read_group_entries(&groups, &String::from_str("symbols"), false),
        virama: read_group_entries(&groups, &String::from_str("virama"), false),
    };
    Ok(map)
}

} // verus!
