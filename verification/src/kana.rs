use vstd::prelude::*;

verus! {

/// The distance in code points from a hiragana to the katakana for the same
/// syllable.
pub const KATAKANA_OFFSET: u32 = 0x60;

/// Whether `c` is one of the forty-six plain hiragana: the vowels, the
/// unvoiced syllables of the k, s, t, n, h, m, y, r and w rows, and the
/// syllabic n.
pub open spec fn is_plain_hiragana(c: char) -> bool {
    ||| c == 'あ' || c == 'い' || c == 'う' || c == 'え' || c == 'お'
    ||| c == 'か' || c == 'き' || c == 'く' || c == 'け' || c == 'こ'
    ||| c == 'さ' || c == 'し' || c == 'す' || c == 'せ' || c == 'そ'
    ||| c == 'た' || c == 'ち' || c == 'つ' || c == 'て' || c == 'と'
    ||| c == 'な' || c == 'に' || c == 'ぬ' || c == 'ね' || c == 'の'
    ||| c == 'は' || c == 'ひ' || c == 'ふ' || c == 'へ' || c == 'ほ'
    ||| c == 'ま' || c == 'み' || c == 'む' || c == 'め' || c == 'も'
    ||| c == 'や' || c == 'ゆ' || c == 'よ'
    ||| c == 'ら' || c == 'り' || c == 'る' || c == 'れ' || c == 'ろ'
    ||| c == 'わ' || c == 'を' || c == 'ん'
}

/// The katakana for a plain hiragana; any other character is itself.
pub open spec fn katakana_of(c: char) -> char {
    if is_plain_hiragana(c) {
        ((c as u32) + KATAKANA_OFFSET) as char
    } else {
        c
    }
}

/// The katakana for a plain hiragana; any other character is itself.
pub fn to_katakana(c: char) -> (k: char)
    ensures
        k == katakana_of(c),
{
    match c {
        'あ' => 'ア', 'い' => 'イ', 'う' => 'ウ', 'え' => 'エ', 'お' => 'オ',
        'か' => 'カ', 'き' => 'キ', 'く' => 'ク', 'け' => 'ケ', 'こ' => 'コ',
        'さ' => 'サ', 'し' => 'シ', 'す' => 'ス', 'せ' => 'セ', 'そ' => 'ソ',
        'た' => 'タ', 'ち' => 'チ', 'つ' => 'ツ', 'て' => 'テ', 'と' => 'ト',
        'な' => 'ナ', 'に' => 'ニ', 'ぬ' => 'ヌ', 'ね' => 'ネ', 'の' => 'ノ',
        'は' => 'ハ', 'ひ' => 'ヒ', 'ふ' => 'フ', 'へ' => 'ヘ', 'ほ' => 'ホ',
        'ま' => 'マ', 'み' => 'ミ', 'む' => 'ム', 'め' => 'メ', 'も' => 'モ',
        'や' => 'ヤ', 'ゆ' => 'ユ', 'よ' => 'ヨ',
        'ら' => 'ラ', 'り' => 'リ', 'る' => 'ル', 'れ' => 'レ', 'ろ' => 'ロ',
        'わ' => 'ワ', 'を' => 'ヲ', 'ん' => 'ン',
        _ => c,
    }
}

/// Rewrites `text` with every plain hiragana replaced by its katakana and
/// every other character kept.
pub fn hiragana_to_katakana(text: &str) -> (converted: String)
    ensures
        converted@ == text@.map_values(|c: char| katakana_of(c)),
{
    let mut converted = String::new();
    for c in it: text.chars()
        invariant
            it.seq() == text@,
            converted@ == text@.take(it.index()).map_values(|c: char| katakana_of(c)),
    {
        converted.push(to_katakana(c));
    }
    converted
}

} // verus!
