//! The segmenter: splits raw input into the minimal addressable units of
//! tokenization, one Unicode codepoint each.

use vstd::prelude::*;

verus! {

/// Relies on String::push: appends the given character to the end of the
/// string.
#[verifier::external_body]
pub(crate) fn push_char(text: &mut String, c: char)
    ensures
        final(text)@ == old(text)@.push(c),
{
    text.push(c);
}

/// A one-character string.
pub(crate) fn char_to_string(c: char) -> (res: String)
    ensures
        res@ == seq![c],
{
    let mut text = String::new();
    push_char(&mut text, c);
    proof {
        assert(text@ =~~= seq![c]);
    }
    text
}

/// Splits abugida input into its minimal addressable units: exactly one
/// Unicode codepoint each, so that combining vowel signs and the virama stay
/// separate from the base consonant they follow.
pub fn indic_to_chars(input: String) -> (units: Vec<String>)
    ensures
        units@.len() == input@.len(),
        forall|i: int| 0 <= i < input@.len() ==> #[trigger] units@[i]@ == seq![input@[i]],
{
    let mut units: Vec<String> = Vec::new();
    let n = input.as_str().unicode_len();
    for idx in 0..n
        invariant
            n == input@.len(),
            units@.len() == idx,
            forall|i: int| 0 <= i < idx ==> #[trigger] units@[i]@ == seq![input@[i]],
    {
        let c = input.as_str().get_char(idx);
        units.push(char_to_string(c));
    }
    units
}

/// Splits romanized input into units. Romanized schemes are likewise split
/// per codepoint: a decomposed diacritic (a base letter followed by a
/// combining mark) is two units, reassembled later by category lookup rather
/// than by grapheme clustering.
pub fn roman_to_graphemes(input: String) -> (units: Vec<String>)
    ensures
        units@.len() == input@.len(),
        forall|i: int| 0 <= i < input@.len() ==> #[trigger] units@[i]@ == seq![input@[i]],
{
    indic_to_chars(input)
}

} // verus!
