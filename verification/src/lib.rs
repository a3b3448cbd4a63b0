//! Script-agnostic transliteration between South-Asian writing systems.
//!
//! Text in one script (an abugida such as Devanagari or Telugu, or a
//! romanized scheme such as IAST/ISO) is segmented into single-codepoint
//! units, tokenized into a script-independent sequence of phonemic tokens,
//! and rendered back into the glyphs of a target script.

pub mod lexer;
pub mod pipeline;
pub mod scanner;
pub mod scripts;
pub mod types;
