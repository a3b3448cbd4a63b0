//! The pipeline: tokenizing units into script-independent tokens, rendering
//! tokens into a target script, the orchestrating context, and the round-trip
//! and passthrough laws.

use vstd::prelude::*;

use crate::lexer::{
    enum_to_deva, find_str_key, produce_scriptmap, read_script, rlookup, spec_deva_name,
};
use crate::scanner::char_to_string;
use crate::scripts::{
    group_or_empty, mapping_character_to_token, spec_scriptmap_of, spec_token_map, ScriptName,
    TokenMap, TokenMapV,
};
use crate::types::{Category, ConfigError, Script, ScriptMap, Token, TokenV};
use crate::types::spec_script_of_name;

verus! {

/// The scripts one conversion reads from and writes to.
#[derive(Debug)]
pub struct Context {
    pub input: Script,
    pub output: Script,
}

impl Context {
    /// Selects the source and target script by name. The names must be
    /// recognized; `Script::from_name` reports an unknown one instead.
    pub fn new(input: String, output: String) -> (res: Self)
        requires
            spec_script_of_name(input@) is Some,
            spec_script_of_name(output@) is Some,
        ensures
            Some(res.input) == spec_script_of_name(input@),
            Some(res.output) == spec_script_of_name(output@),
    {
        Self { input: generate_scriptname(input), output: generate_scriptname(output) }
    }
}

/// Parses a script name that is known to be recognized.
pub fn generate_scriptname(value: String) -> (res: Script)
    requires
        spec_script_of_name(value@) is Some,
    ensures
        Some(res) == spec_script_of_name(value@),
{
    match Script::from_name(value.as_str()) {
        Ok(script) => script,
        Err(_) => vstd::pervasive::unreached(),
    }
}

/// What one unit character resolves to under a read view: the token its
/// glyph denotes, or a passthrough token carrying the unit itself.
pub open spec fn spec_resolve(map: TokenMapV, unit: char) -> TokenV {
    match map.lookup(unit) {
        Some(tok) => tok,
        None => TokenV::Unknown(seq![unit]),
    }
}

/// Whether the unit at position `i` resolves to a vowel or a vowel sign.
pub open spec fn unit_vowelish_at(map: TokenMapV, text: Seq<char>, i: int) -> bool {
    &&& i < text.len()
    &&& match map.lookup(text[i]) {
        Some(tok) => tok.is_vowel() || tok.is_vowel_mark(),
        None => false,
    }
}

/// One tokenizer step: how the token the current unit resolves to extends
/// the tokens emitted so far.
///
/// - A vowel sign directly after a vowel or vowel sign replaces it: when a
///   script double-encodes vowel length with two adjacent marks, only the
///   final mark is significant.
/// - In a romanized source every vowel is written out, so a consonant whose
///   next unit is not a vowel carries no vowel at all: an explicit virama
///   token records that. In an abugida source the absence of a following
///   mark is itself the signal, and nothing is added.
/// - An unrecognized unit becomes a passthrough token, so tokenizing never
///   fails.
pub open spec fn spec_tok_step(
    acc: Seq<TokenV>,
    resolved: Option<TokenV>,
    unit: char,
    next_vowelish: bool,
    src_abugida: bool,
) -> Seq<TokenV> {
    match resolved {
        None => acc.push(TokenV::Unknown(seq![unit])),
        Some(tok) => if tok.is_vowel_mark() && acc.len() > 0 && (acc.last().is_vowel()
            || acc.last().is_vowel_mark()) {
            acc.drop_last().push(tok)
        } else if tok.is_consonant() && !src_abugida && !next_vowelish {
            acc.push(tok).push(TokenV::virama)
        } else {
            acc.push(tok)
        },
    }
}

/// The tokens emitted for the first `n` units of `text`.
pub open spec fn spec_tokenize_prefix(
    text: Seq<char>,
    map: TokenMapV,
    src_abugida: bool,
    n: int,
) -> Seq<TokenV>
    decreases n,
{
    if n <= 0 {
        Seq::empty()
    } else {
        spec_tok_step(
            spec_tokenize_prefix(text, map, src_abugida, n - 1),
            map.lookup(text[n - 1]),
            text[n - 1],
            unit_vowelish_at(map, text, n),
            src_abugida,
        )
    }
}

/// The tokens a text tokenizes to under a read view.
pub open spec fn spec_tokenize(text: Seq<char>, map: TokenMapV, src_abugida: bool) -> Seq<
    TokenV,
> {
    spec_tokenize_prefix(text, map, src_abugida, text.len() as int)
}

/// Tokenizes a text against an explicit read view, one unit per codepoint,
/// with a one-token lookback and a one-unit lookahead.
pub fn tokenize_with_map(text: &str, map: &TokenMap, src_abugida: bool) -> (tokens: Vec<Token>)
    ensures
        tokens.deep_view() == spec_tokenize(text@, map@, src_abugida),
{
    let mut tokens: Vec<Token> = Vec::new();
    let n = text.unicode_len();
    for idx in 0..n
        invariant
            n == text@.len(),
            tokens.deep_view() == spec_tokenize_prefix(text@, map@, src_abugida, idx as int),
    {
        let ghost before = tokens.deep_view();
        let unit = text.get_char(idx);
        match map.lookup(unit) {
            None => {
                tokens.push(Token::Unknown(char_to_string(unit)));
            },
            Some(tok) => {
                let replaces = tok.is_vowel_mark() && tokens.len() > 0 && {
                    let prev = &tokens[tokens.len() - 1];
                    prev.is_vowel() || prev.is_vowel_mark()
                };
                if replaces {
                    let _ = tokens.pop();
                    tokens.push(tok);
                } else if tok.is_consonant() && !src_abugida {
                    let next_vowelish = idx + 1 < n && {
                        match map.lookup(text.get_char(idx + 1)) {
                            Some(next_tok) => next_tok.is_vowel() || next_tok.is_vowel_mark(),
                            None => false,
                        }
                    };
                    tokens.push(tok);
                    if !next_vowelish {
                        tokens.push(Token::virama);
                    }
                } else {
                    tokens.push(tok);
                }
            },
        }
        proof {
            assert(tokens.deep_view() =~= spec_tok_step(
                before,
                map@.lookup(text@[idx as int]),
                text@[idx as int],
                unit_vowelish_at(map@, text@, idx + 1),
                src_abugida,
            ));
        }
    }
    tokens
}

/// Tokenizes a text read as the context's source script. Fails exactly when
/// that script's table cannot be loaded.
pub fn tokenize(text: &str, ctx: &Context) -> (res: Result<Vec<Token>, ConfigError>)
    ensures
        match res {
            Ok(tokens) => {
                &&& spec_token_map(ctx.input) is Some
                &&& tokens.deep_view() == spec_tokenize(
                    text@,
                    spec_token_map(ctx.input)->Some_0,
                    !ctx.input.spec_is_roman(),
                )
            },
            Err(_) => spec_token_map(ctx.input) is None,
        },
{
    let map = match mapping_character_to_token(&ScriptName::of_script(ctx.input)) {
        Ok(map) => map,
        Err(err) => {
            return Err(err);
        },
    };
    let src_abugida = ctx.input.is_brahmic();
    Ok(tokenize_with_map(text, &map, src_abugida))
}

/// The glyph a write view declares under a category and canonical name;
/// nothing where the category or the name is absent. The one undeclared
/// entry with a meaning is the inherent vowel's sign, whose absence *is* its
/// spelling: the empty string.
pub open spec fn spec_glyph_for(
    write_view: Seq<(Seq<char>, Seq<(Seq<char>, Seq<char>)>)>,
    category: Seq<char>,
    key: Seq<char>,
) -> Seq<char> {
    match rlookup(group_or_empty(write_view, category), key) {
        Some(glyph) => glyph,
        None => Seq::empty(),
    }
}

/// Whether the token at position `i` continues a syllable: a vowel, a vowel
/// sign, or a virama. A consonant followed by anything else carries its
/// inherent vowel.
pub open spec fn token_vowelish_at(tokens: Seq<TokenV>, i: int) -> bool {
    &&& i < tokens.len()
    &&& (tokens[i].is_vowel() || tokens[i].is_vowel_mark() || tokens[i].is_virama())
}

/// The renderer's syllable state after the first `n` tokens: whether the
/// rendering position stands directly after a consonant. Consonants enter
/// that state, accents leave it unchanged, every other token returns to the
/// start of a syllable.
pub open spec fn spec_render_state(tokens: Seq<TokenV>, n: int) -> bool
    decreases n,
{
    if n <= 0 {
        false
    } else {
        match tokens[n - 1].category() {
            Category::Consonant => true,
            Category::Accent => spec_render_state(tokens, n - 1),
            _ => false,
        }
    }
}

/// What one token writes:
///
/// - An independent vowel directly after a consonant is written as the
///   dependent vowel sign; elsewhere as the independent vowel letter.
/// - A consonant not followed by a vowel, vowel sign or virama carries the
///   inherent vowel, written as that vowel's sign: the target's own glyph
///   for it, or nothing at all where the target leaves it invisible.
/// - A virama, accent or symbol with no declared glyph in the target is
///   dropped; a passthrough token writes its captured text verbatim.
pub open spec fn spec_render_token(
    write_view: Seq<(Seq<char>, Seq<(Seq<char>, Seq<char>)>)>,
    tok: TokenV,
    after_consonant: bool,
    next_vowelish: bool,
) -> Seq<char> {
    match tok.category() {
        Category::Vowel => if after_consonant {
            spec_glyph_for(write_view, "vowel_marks"@, spec_deva_name(tok))
        } else {
            spec_glyph_for(write_view, "vowels"@, spec_deva_name(tok))
        },
        Category::VowelMark => spec_glyph_for(
            write_view,
            "vowel_marks"@,
            spec_deva_name(tok.vowel_of_mark()),
        ),
        Category::Consonant => spec_glyph_for(write_view, "consonants"@, spec_deva_name(tok))
            + if next_vowelish {
            Seq::empty()
        } else {
            spec_glyph_for(write_view, "vowel_marks"@, seq!['अ'])
        },
        Category::Yogavaha => spec_glyph_for(write_view, "yogavaahas"@, spec_deva_name(tok)),
        Category::Virama => spec_glyph_for(write_view, "virama"@, spec_deva_name(tok)),
        Category::Accent => spec_glyph_for(write_view, "accents"@, spec_deva_name(tok)),
        Category::Symbol => spec_glyph_for(write_view, "symbols"@, spec_deva_name(tok)),
        Category::Other => match tok {
            TokenV::Unknown(text) => text,
            _ => Seq::empty(),
        },
    }
}

/// The text the first `n` tokens render to.
pub open spec fn spec_render_prefix(
    tokens: Seq<TokenV>,
    write_view: Seq<(Seq<char>, Seq<(Seq<char>, Seq<char>)>)>,
    n: int,
) -> Seq<char>
    decreases n,
{
    if n <= 0 {
        Seq::empty()
    } else {
        spec_render_prefix(tokens, write_view, n - 1) + spec_render_token(
            write_view,
            tokens[n - 1],
            spec_render_state(tokens, n - 1),
            token_vowelish_at(tokens, n),
        )
    }
}

/// The text a token sequence renders to under a write view.
pub open spec fn spec_render(
    tokens: Seq<TokenV>,
    write_view: Seq<(Seq<char>, Seq<(Seq<char>, Seq<char>)>)>,
) -> Seq<char> {
    spec_render_prefix(tokens, write_view, tokens.len() as int)
}

/// The syllable state after the first `n` units of a text, before any
/// tokens exist: the mirror of `spec_render_state` over what each unit
/// resolves to.
pub open spec fn spec_text_state(text: Seq<char>, map: TokenMapV, n: int) -> bool
    decreases n,
{
    if n <= 0 {
        false
    } else {
        match spec_resolve(map, text[n - 1]).category() {
            Category::Consonant => true,
            Category::Accent => spec_text_state(text, map, n - 1),
            _ => false,
        }
    }
}

/// A text composed solely of well-formed syllables of the source script:
/// no vowel sign directly after a vowel or vowel sign (which the tokenizer
/// would collapse), and no independent vowel in the after-consonant
/// position (which the renderer would write as a dependent sign).
pub open spec fn well_formed_abugida_text(text: Seq<char>, map: TokenMapV) -> bool {
    forall|i: int|
        0 <= i < text.len() ==> {
            let tok = #[trigger] spec_resolve(map, text[i]);
            &&& (tok.is_vowel_mark() ==> !(i > 0 && (spec_resolve(map, text[i - 1]).is_vowel()
                || spec_resolve(map, text[i - 1]).is_vowel_mark())))
            &&& (tok.is_vowel() ==> !spec_text_state(text, map, i))
        }
}

proof fn lemma_tokenize_wf(text: Seq<char>, map: TokenMapV, n: int)
    requires
        well_formed_abugida_text(text, map),
        0 <= n <= text.len(),
    ensures
        spec_tokenize_prefix(text, map, true, n).len() == n,
        forall|i: int|
            0 <= i < n ==> spec_tokenize_prefix(text, map, true, n)[i] == #[trigger] spec_resolve(
                map,
                text[i],
            ),
    decreases n,
{
    if n > 0 {
        lemma_tokenize_wf(text, map, n - 1);
        let acc = spec_tokenize_prefix(text, map, true, n - 1);
        let full = spec_tokenize_prefix(text, map, true, n);
        let tok = spec_resolve(map, text[n - 1]);
        match map.lookup(text[n - 1]) {
            None => {
                assert(full == acc.push(tok));
            },
            Some(found) => {
                assert(found == tok);
                if tok.is_vowel_mark() && acc.len() > 0 {
                    assert(acc.last() == spec_resolve(map, text[n - 2]));
                    assert(!(acc.last().is_vowel() || acc.last().is_vowel_mark()));
                }
                assert(full == acc.push(tok));
            },
        }
        assert forall|i: int|
            0 <= i < n implies full[i] == #[trigger] spec_resolve(map, text[i]) by {
            if i < n - 1 {
                assert(full[i] == acc[i]);
            }
        }
    }
}

proof fn lemma_state_align(text: Seq<char>, map: TokenMapV, tokens: Seq<TokenV>, n: int)
    requires
        0 <= n <= text.len(),
        tokens.len() == text.len(),
        forall|i: int|
            0 <= i < text.len() ==> tokens[i] == #[trigger] spec_resolve(map, text[i]),
    ensures
        spec_render_state(tokens, n) == spec_text_state(text, map, n),
    decreases n,
{
    if n > 0 {
        lemma_state_align(text, map, tokens, n - 1);
    }
}

proof fn lemma_render_wf(
    text: Seq<char>,
    map: TokenMapV,
    write_view: Seq<(Seq<char>, Seq<(Seq<char>, Seq<char>)>)>,
    tokens: Seq<TokenV>,
    n: int,
)
    requires
        well_formed_abugida_text(text, map),
        forall|c: char| (#[trigger] map.lookup(c)) is Some ==> spec_render_token(
            write_view,
            map.lookup(c)->Some_0,
            false,
            true,
        ) == seq![c],
        spec_glyph_for(write_view, "vowel_marks"@, seq!['अ']) == Seq::<char>::empty(),
        0 <= n <= text.len(),
        tokens.len() == text.len(),
        forall|i: int|
            0 <= i < text.len() ==> tokens[i] == #[trigger] spec_resolve(map, text[i]),
    ensures
        spec_render_prefix(tokens, write_view, n) == text.take(n),
    decreases n,
{
    if n > 0 {
        lemma_render_wf(text, map, write_view, tokens, n - 1);
        let unit = text[n - 1];
        let tok = tokens[n - 1];
        assert(tok == spec_resolve(map, unit));
        lemma_state_align(text, map, tokens, n - 1);
        let state = spec_render_state(tokens, n - 1);
        let next_vowelish = token_vowelish_at(tokens, n);
        let written = spec_render_token(write_view, tok, state, next_vowelish);
        match map.lookup(unit) {
            None => {
                assert(tok == TokenV::Unknown(seq![unit]));
                assert(written == seq![unit]);
            },
            Some(found) => {
                assert(found == tok);
                assert(spec_render_token(write_view, tok, false, true) == seq![unit]);
                match tok.category() {
                    Category::Vowel => {
                        assert(!spec_text_state(text, map, n - 1));
                        assert(!state);
                        assert(written == seq![unit]);
                    },
                    Category::Consonant => {
                        let glyph = spec_glyph_for(write_view, "consonants"@, spec_deva_name(tok));
                        assert(glyph + Seq::<char>::empty() =~= glyph);
                        assert(glyph == seq![unit]);
                        assert(written =~= seq![unit]);
                    },
                    _ => {
                        assert(written == seq![unit]);
                    },
                }
            },
        }
        assert(spec_render_prefix(tokens, write_view, n) =~= text.take(n - 1) + written);
        assert(text.take(n - 1) + seq![unit] =~= text.take(n));
    }
}

/// Round trip: tokenizing a text of an abugida script and rendering the
/// tokens back into the same script reproduces the text exactly.
///
/// The views are related as one script's own read and write views are: every
/// glyph the read view resolves is written back as itself, and the inherent
/// vowel's sign is invisible. The text consists solely of well-formed
/// syllables; in particular no vowel sign doubles another, since the
/// tokenizer keeps only the final mark of such a pair.
pub proof fn lemma_round_trip(
    text: Seq<char>,
    map: TokenMapV,
    write_view: Seq<(Seq<char>, Seq<(Seq<char>, Seq<char>)>)>,
)
    requires
        forall|c: char| (#[trigger] map.lookup(c)) is Some ==> spec_render_token(
            write_view,
            map.lookup(c)->Some_0,
            false,
            true,
        ) == seq![c],
        spec_glyph_for(write_view, "vowel_marks"@, seq!['अ']) == Seq::<char>::empty(),
        well_formed_abugida_text(text, map),
    ensures
        spec_render(spec_tokenize(text, map, true), write_view) == text,
{
    let tokens = spec_tokenize(text, map, true);
    lemma_tokenize_wf(text, map, text.len() as int);
    lemma_render_wf(text, map, write_view, tokens, text.len() as int);
    assert(text.take(text.len() as int) =~= text);
}

/// Consonant with implicit vowel: a unit resolving to a consonant, as the
/// whole of an abugida source text, tokenizes to that single consonant
/// token, with nothing appended for the inherent vowel.
pub proof fn lemma_bare_consonant_token(map: TokenMapV, unit: char)
    requires
        map.lookup(unit) is Some,
        map.lookup(unit)->Some_0.is_consonant(),
    ensures
        spec_tokenize(seq![unit], map, true) =~= seq![map.lookup(unit)->Some_0],
{
    let text = seq![unit];
    assert(spec_tokenize_prefix(text, map, true, 0) =~= Seq::<TokenV>::empty());
}

/// A consonant directly followed by the virama glyph tokenizes to the
/// consonant token and the virama token, exactly.
pub proof fn lemma_explicit_virama_tokens(map: TokenMapV, c_unit: char, v_unit: char)
    requires
        map.lookup(c_unit) is Some,
        map.lookup(c_unit)->Some_0.is_consonant(),
        map.lookup(v_unit) is Some,
        map.lookup(v_unit)->Some_0.is_virama(),
    ensures
        spec_tokenize(seq![c_unit, v_unit], map, true) =~= seq![
            map.lookup(c_unit)->Some_0,
            map.lookup(v_unit)->Some_0,
        ],
{
    let text = seq![c_unit, v_unit];
    assert(spec_tokenize_prefix(text, map, true, 0) =~= Seq::<TokenV>::empty());
    assert(spec_tokenize_prefix(text, map, true, 1) =~= seq![map.lookup(c_unit)->Some_0]);
}

/// Rendering a lone consonant token writes the consonant's glyph followed
/// by the target's own spelling of the inherent vowel: written out by a
/// romanized script, invisible in an abugida.
pub proof fn lemma_consonant_inherent_vowel(
    write_view: Seq<(Seq<char>, Seq<(Seq<char>, Seq<char>)>)>,
    tok: TokenV,
)
    requires
        tok.is_consonant(),
    ensures
        spec_render(seq![tok], write_view) == spec_glyph_for(
            write_view,
            "consonants"@,
            spec_deva_name(tok),
        ) + spec_glyph_for(write_view, "vowel_marks"@, seq!['अ']),
{
    let tokens = seq![tok];
    assert(spec_render_prefix(tokens, write_view, 0) =~= Seq::<char>::empty());
    assert(Seq::<char>::empty() + spec_render_token(write_view, tok, false, false)
        =~= spec_render_token(write_view, tok, false, false));
}

/// A virama token directly after a consonant suppresses the inherent vowel:
/// where the target declares no virama glyph (romanized scripts declare
/// none), the pair renders to the bare consonant glyph alone.
pub proof fn lemma_virama_suppresses_inherent(
    write_view: Seq<(Seq<char>, Seq<(Seq<char>, Seq<char>)>)>,
    tok: TokenV,
)
    requires
        tok.is_consonant(),
        spec_glyph_for(write_view, "virama"@, spec_deva_name(TokenV::virama)) == Seq::<
            char,
        >::empty(),
    ensures
        spec_render(seq![tok, TokenV::virama], write_view) == spec_glyph_for(
            write_view,
            "consonants"@,
            spec_deva_name(tok),
        ),
{
    let tokens = seq![tok, TokenV::virama];
    let glyph = spec_glyph_for(write_view, "consonants"@, spec_deva_name(tok));
    assert(spec_render_prefix(tokens, write_view, 0) =~= Seq::<char>::empty());
    assert(token_vowelish_at(tokens, 1));
    assert(spec_render_prefix(tokens, write_view, 1) =~= glyph + Seq::<char>::empty());
    assert(spec_render_prefix(tokens, write_view, 2) =~= glyph);
}

/// Vowel sign against independent vowel: after a consonant, a vowel is
/// written with the dependent sign and never with the independent vowel
/// letter; a lone vowel is written with the independent letter.
pub proof fn lemma_vowel_sign_vs_independent(
    write_view: Seq<(Seq<char>, Seq<(Seq<char>, Seq<char>)>)>,
)
    ensures
        spec_render(seq![TokenV::s, TokenV::vm_a], write_view) == spec_glyph_for(
            write_view,
            "consonants"@,
            spec_deva_name(TokenV::s),
        ) + spec_glyph_for(write_view, "vowel_marks"@, seq!['अ']),
        spec_render(seq![TokenV::a], write_view) == spec_glyph_for(
            write_view,
            "vowels"@,
            seq!['अ'],
        ),
{
    let tokens = seq![TokenV::s, TokenV::vm_a];
    let glyph = spec_glyph_for(write_view, "consonants"@, spec_deva_name(TokenV::s));
    assert(spec_render_prefix(tokens, write_view, 0) =~= Seq::<char>::empty());
    assert(token_vowelish_at(tokens, 1));
    assert(spec_render_prefix(tokens, write_view, 1) =~= glyph + Seq::<char>::empty());
    assert(spec_deva_name(TokenV::vm_a.vowel_of_mark()) == seq!['अ']);
    assert(spec_render_prefix(tokens, write_view, 2) =~= glyph + spec_glyph_for(
        write_view,
        "vowel_marks"@,
        seq!['अ'],
    ));
    let lone = seq![TokenV::a];
    assert(spec_render_prefix(lone, write_view, 0) =~= Seq::<char>::empty());
    assert(!spec_render_state(lone, 0));
    assert(spec_deva_name(TokenV::a) == seq!['अ']);
    assert(spec_render_prefix(lone, write_view, 1) =~= Seq::<char>::empty() + spec_glyph_for(
        write_view,
        "vowels"@,
        seq!['अ'],
    ));
    assert(Seq::<char>::empty() + spec_glyph_for(write_view, "vowels"@, seq!['अ'])
        =~= spec_glyph_for(write_view, "vowels"@, seq!['अ']));
}

proof fn lemma_tokenize_keeps_unknown(
    text: Seq<char>,
    map: TokenMapV,
    src_abugida: bool,
    i: int,
    n: int,
)
    requires
        0 <= i < n <= text.len(),
        map.lookup(text[i]) is None,
    ensures
        spec_tokenize_prefix(text, map, src_abugida, n).contains(TokenV::Unknown(seq![text[i]])),
    decreases n,
{
    let unknown = TokenV::Unknown(seq![text[i]]);
    let acc = spec_tokenize_prefix(text, map, src_abugida, n - 1);
    let full = spec_tokenize_prefix(text, map, src_abugida, n);
    if n == i + 1 {
        assert(full[full.len() - 1] == unknown);
    } else {
        lemma_tokenize_keeps_unknown(text, map, src_abugida, i, n - 1);
        let at = choose|j: int| 0 <= j < acc.len() && acc[j] == unknown;
        match map.lookup(text[n - 1]) {
            None => {
                assert(full[at] == unknown);
            },
            Some(tok) => {
                if tok.is_vowel_mark() && acc.len() > 0 && (acc.last().is_vowel()
                    || acc.last().is_vowel_mark()) {
                    assert(at < acc.len() - 1) by {
                        assert(unknown.category() == Category::Other);
                    }
                    assert(full[at] == acc.drop_last()[at]);
                    assert(full[at] == unknown);
                } else {
                    assert(full[at] == unknown);
                }
            },
        }
    }
}

proof fn lemma_render_keeps_unknown(
    tokens: Seq<TokenV>,
    write_view: Seq<(Seq<char>, Seq<(Seq<char>, Seq<char>)>)>,
    c: char,
    j: int,
    n: int,
)
    requires
        0 <= j < n <= tokens.len(),
        tokens[j] == TokenV::Unknown(seq![c]),
    ensures
        spec_render_prefix(tokens, write_view, n).contains(c),
    decreases n,
{
    let before = spec_render_prefix(tokens, write_view, n - 1);
    let full = spec_render_prefix(tokens, write_view, n);
    if n == j + 1 {
        let written = spec_render_token(
            write_view,
            tokens[j],
            spec_render_state(tokens, j),
            token_vowelish_at(tokens, n),
        );
        assert(written == seq![c]);
        assert(full[before.len() as int] == c);
    } else {
        lemma_render_keeps_unknown(tokens, write_view, c, j, n - 1);
        let at = choose|k: int| 0 <= k < before.len() && before[k] == c;
        assert(full[at] == c);
    }
}

/// Unknown-glyph passthrough: a codepoint that no category of the source
/// table resolves reappears verbatim in the output, whatever the target
/// script's table is.
pub proof fn lemma_unknown_passthrough(
    text: Seq<char>,
    map: TokenMapV,
    write_view: Seq<(Seq<char>, Seq<(Seq<char>, Seq<char>)>)>,
    src_abugida: bool,
    i: int,
)
    requires
        0 <= i < text.len(),
        map.lookup(text[i]) is None,
    ensures
        spec_render(spec_tokenize(text, map, src_abugida), write_view).contains(text[i]),
{
    let tokens = spec_tokenize(text, map, src_abugida);
    lemma_tokenize_keeps_unknown(text, map, src_abugida, i, text.len() as int);
    let at = choose|j: int|
        0 <= j < tokens.len() && tokens[j] == TokenV::Unknown(seq![text[i]]);
    lemma_render_keeps_unknown(tokens, write_view, text[i], at, tokens.len() as int);
}

/// Appends the glyph declared under `category` and `key`, or nothing.
fn append_glyph(out: &mut String, write_view: &ScriptMap, category: &String, key: &String)
    ensures
        final(out)@ == old(out)@ + spec_glyph_for(write_view.deep_view(), category@, key@),
{
    match find_str_key(write_view, category) {
        Some(group) => {
            match find_str_key(group, key) {
                Some(glyph) => {
                    out.append(glyph.as_str());
                },
                None => {
                    proof {
                        assert(out@ =~= out@ + spec_glyph_for(
                            write_view.deep_view(),
                            category@,
                            key@,
                        ));
                    }
                },
            }
        },
        None => {
            proof {
                assert(out@ =~= out@ + spec_glyph_for(write_view.deep_view(), category@, key@));
            }
        },
    }
}

/// Renders tokens against an explicit write view, with a one-token
/// lookahead and the syllable state of `spec_render_state`.
pub fn render_with_map(tokens: &Vec<Token>, write_view: &ScriptMap) -> (res: String)
    ensures
        res@ == spec_render(tokens.deep_view(), write_view.deep_view()),
{
    let ghost toks = tokens.deep_view();
    let ghost wv = write_view.deep_view();
    let mut out = String::new();
    let mut after_consonant = false;
    for idx in 0..tokens.len()
        invariant
            toks == tokens.deep_view(),
            wv == write_view.deep_view(),
            out@ == spec_render_prefix(toks, wv, idx as int),
            after_consonant == spec_render_state(toks, idx as int),
    {
        let tok = &tokens[idx];
        match tok.category() {
            Category::Vowel => {
                let key = enum_to_deva(tok);
                if after_consonant {
                    append_glyph(&mut out, write_view, &String::from_str("vowel_marks"), &key);
                } else {
                    append_glyph(&mut out, write_view, &String::from_str("vowels"), &key);
                }
                after_consonant = false;
            },
            Category::VowelMark => {
                let key = enum_to_deva(&tok.to_independent_vowel());
                append_glyph(&mut out, write_view, &String::from_str("vowel_marks"), &key);
                after_consonant = false;
            },
            Category::Consonant => {
                let key = enum_to_deva(tok);
                append_glyph(&mut out, write_view, &String::from_str("consonants"), &key);
                let next_vowelish = idx + 1 < tokens.len() && {
                    let next_tok = &tokens[idx + 1];
                    next_tok.is_vowel() || next_tok.is_vowel_mark() || next_tok.is_virama()
                };
                if !next_vowelish {
                    append_glyph(
                        &mut out,
                        write_view,
                        &String::from_str("vowel_marks"),
                        &char_to_string('अ'),
                    );
                }
                after_consonant = true;
            },
            Category::Yogavaha => {
                let key = enum_to_deva(tok);
                append_glyph(&mut out, write_view, &String::from_str("yogavaahas"), &key);
                after_consonant = false;
            },
            Category::Virama => {
                let key = enum_to_deva(tok);
                append_glyph(&mut out, write_view, &String::from_str("virama"), &key);
                after_consonant = false;
            },
            Category::Accent => {
                let key = enum_to_deva(tok);
                append_glyph(&mut out, write_view, &String::from_str("accents"), &key);
            },
            Category::Symbol => {
                let key = enum_to_deva(tok);
                append_glyph(&mut out, write_view, &String::from_str("symbols"), &key);
                after_consonant = false;
            },
            Category::Other => {
                match tok {
                    Token::Unknown(text) => {
                        out.append(text.as_str());
                    },
                    _ => {},
                }
                after_consonant = false;
            },
        }
        proof {
            assert(out@ =~= spec_render_prefix(toks, wv, idx + 1));
        }
    }
    out
}

/// Renders tokens into the context's target script. Fails exactly when that
/// script's table cannot be loaded.
pub fn render(tokens: &Vec<Token>, ctx: &Context) -> (res: Result<String, ConfigError>)
    ensures
        match res {
            Ok(out) => {
                &&& spec_scriptmap_of(ctx.output, false) is Some
                &&& out@ == spec_render(
                    tokens.deep_view(),
                    spec_scriptmap_of(ctx.output, false)->Some_0,
                )
            },
            Err(_) => spec_scriptmap_of(ctx.output, false) is None,
        },
{
    let tables = match read_script(ctx.output) {
        Ok(tables) => tables,
        Err(err) => {
            return Err(err);
        },
    };
    let write_view = match produce_scriptmap(&tables, false) {
        Ok(write_view) => write_view,
        Err(err) => {
            return Err(err);
        },
    };
    Ok(render_with_map(tokens, &write_view))
}

/// What transliterating a text between two scripts yields, or nothing where
/// either script's table does not load.
pub open spec fn spec_transliterate(text: Seq<char>, input: Script, output: Script) -> Option<
    Seq<char>,
> {
    match (spec_token_map(input), spec_scriptmap_of(output, false)) {
        (Some(read_view), Some(write_view)) => Some(
            spec_render(spec_tokenize(text, read_view, !input.spec_is_roman()), write_view),
        ),
        _ => None,
    }
}

/// The transliteration pipeline.
pub struct Transliterator {
    pub context_a: bool,
    pub context_b: bool,
}

impl Transliterator {
    pub fn new(context_a: bool, context_b: bool) -> (res: Self)
        ensures
            res.context_a == context_a,
            res.context_b == context_b,
    {
        Self { context_a, context_b }
    }

    /// Converts `text` from the `input` script to the `output` script:
    /// segment, tokenize, render. Unknown glyphs pass through; only a script
    /// table that fails to load is an error.
    pub fn transliterate(&self, text: &str, input: Script, output: Script) -> (res: Result<
        String,
        ConfigError,
    >)
        ensures
            match res {
                Ok(out) => Some(out@) == spec_transliterate(text@, input, output),
                Err(_) => spec_transliterate(text@, input, output) is None,
            },
    {
        let ctx = Context { input, output };
        let tokens = match tokenize(text, &ctx) {
            Ok(tokens) => tokens,
            Err(err) => {
                return Err(err);
            },
        };
        render(&tokens, &ctx)
    }
}

} // verus!

