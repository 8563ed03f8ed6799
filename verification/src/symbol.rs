use crate::text::chars_of;
use vstd::prelude::*;

verus! {

/// The space character.
pub const SPACE: char = ' ';

/// The control code that a delete-back keystroke sends.
pub const BACKSPACE: char = '\u{8}';

/// Whether `c` is one of the letters `a` to `z` or `A` to `Z`.
pub open spec fn is_ascii_letter(c: char) -> bool {
    ('a' <= c && c <= 'z') || ('A' <= c && c <= 'Z')
}

/// Whether every character of `text` is an ASCII letter.
pub open spec fn all_ascii_letters(text: Seq<char>) -> bool {
    forall|i: int| 0 <= i < text.len() ==> is_ascii_letter(#[trigger] text[i])
}

/// What an input symbol is to the buffer engine.
#[derive(Clone, Copy, Debug, PartialEq, Eq, Structural)]
pub enum SymbolKind {
    /// The space character, which resolves the buffer.
    Space,
    /// The delete-back control code, which edits the buffer.
    Backspace,
    /// An ASCII letter, which is appended to the buffer.
    Letter,
    /// Any other symbol, which is never buffered.
    Other,
}

/// The kind of `symbol`.
pub open spec fn kind_of(symbol: char) -> SymbolKind {
    if symbol == SPACE {
        SymbolKind::Space
    } else if symbol == BACKSPACE {
        SymbolKind::Backspace
    } else if is_ascii_letter(symbol) {
        SymbolKind::Letter
    } else {
        SymbolKind::Other
    }
}

/// Whether `c` is an ASCII letter.
pub fn ascii_letter(c: char) -> (letter: bool)
    ensures
        letter == is_ascii_letter(c),
{
    ('a' <= c && c <= 'z') || ('A' <= c && c <= 'Z')
}

/// Tells the four kinds of input symbol apart.
pub fn classify(symbol: char) -> (kind: SymbolKind)
    ensures
        kind == kind_of(symbol),
{
    if symbol == SPACE {
        SymbolKind::Space
    } else if symbol == BACKSPACE {
        SymbolKind::Backspace
    } else if ascii_letter(symbol) {
        SymbolKind::Letter
    } else {
        SymbolKind::Other
    }
}

/// The one symbol that `text` consists of. A text that is empty or holds more
/// than one character is not a symbol.
pub fn single_symbol(text: &str) -> (symbol: Option<char>)
    ensures
        symbol == if text@.len() == 1 {
            Some(text@[0])
        } else {
            None
        },
{
    let chars = chars_of(text);
    if chars.len() == 1 {
        Some(chars[0])
    } else {
        None
    }
}

} // verus!
