//! The transliteration core of a keystroke-to-text input method.
//!
//! Letters are gathered in a pending buffer and matched against a dictionary
//! of romanized syllables. On every keystroke the [`engine::Engine`] decides
//! whether to emit converted text, to keep buffering, or to flush the buffer
//! as it stands, and returns the texts to insert, in order.

pub mod ambiguity;
pub mod dictionary;
pub mod engine;
pub mod kana;
pub mod laws;
pub mod random;
pub mod romaji;
pub mod symbol;
pub mod text;
