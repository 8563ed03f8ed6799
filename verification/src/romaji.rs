use crate::dictionary::{is_key, well_formed_table, Dictionary};
use crate::symbol::is_ascii_letter;
use vstd::prelude::*;

verus! {

/// The romaji table: each romanized syllable with the hiragana it stands for.
/// Some syllables have two spellings, which are separate keys.
pub open spec fn romaji_table() -> Map<Seq<char>, Seq<char>> {
    Map::<Seq<char>, Seq<char>>::empty()
        // Single vowels
        .insert("a"@, "あ"@)
        .insert("i"@, "い"@)
        .insert("u"@, "う"@)
        .insert("e"@, "え"@)
        .insert("o"@, "お"@)
        // Ka row
        .insert("ka"@, "か"@)
        .insert("ki"@, "き"@)
        .insert("ku"@, "く"@)
        .insert("ke"@, "け"@)
        .insert("ko"@, "こ"@)
        // Sa row
        .insert("sa"@, "さ"@)
        .insert("si"@, "し"@)
        .insert("shi"@, "し"@)
        .insert("su"@, "す"@)
        .insert("se"@, "せ"@)
        .insert("so"@, "そ"@)
        // Ta row
        .insert("ta"@, "た"@)
        .insert("ti"@, "ち"@)
        .insert("chi"@, "ち"@)
        .insert("tu"@, "つ"@)
        .insert("tsu"@, "つ"@)
        .insert("te"@, "て"@)
        .insert("to"@, "と"@)
        // Na row
        .insert("na"@, "な"@)
        .insert("ni"@, "に"@)
        .insert("nu"@, "ぬ"@)
        .insert("ne"@, "ね"@)
        .insert("no"@, "の"@)
        // Ha row
        .insert("ha"@, "は"@)
        .insert("hi"@, "ひ"@)
        .insert("hu"@, "ふ"@)
        .insert("fu"@, "ふ"@)
        .insert("he"@, "へ"@)
        .insert("ho"@, "ほ"@)
        // Ma row
        .insert("ma"@, "ま"@)
        .insert("mi"@, "み"@)
        .insert("mu"@, "む"@)
        .insert("me"@, "め"@)
        .insert("mo"@, "も"@)
        // Ya row
        .insert("ya"@, "や"@)
        .insert("yu"@, "ゆ"@)
        .insert("yo"@, "よ"@)
        // Ra row
        .insert("ra"@, "ら"@)
        .insert("ri"@, "り"@)
        .insert("ru"@, "る"@)
        .insert("re"@, "れ"@)
        .insert("ro"@, "ろ"@)
        // Wa row and the syllabic n
        .insert("wa"@, "わ"@)
        .insert("wo"@, "を"@)
        .insert("n"@, "ん"@)
}

fn define(dictionary: &mut Dictionary, key: &str, value: &str)
    requires
        old(dictionary).wf(),
        is_key(key@),
        value@.len() > 0,
    ensures
        final(dictionary)@ == old(dictionary)@.insert(key@, value@),
        final(dictionary).wf(),
{
    dictionary.insert(key, value);
}

/// Builds the dictionary that holds the romaji table.
pub fn romaji_to_hiragana() -> (dictionary: Dictionary)
    ensures
        dictionary@ == romaji_table(),
        dictionary.wf(),
{
    let mut dictionary = Dictionary::new();

    // Single vowels
    proof {
        reveal_strlit("a");
        reveal_strlit("あ");
        reveal_strlit("i");
        reveal_strlit("い");
        reveal_strlit("u");
        reveal_strlit("う");
        reveal_strlit("e");
        reveal_strlit("え");
        reveal_strlit("o");
        reveal_strlit("お");
    }
    define(&mut dictionary, "a", "あ");
    define(&mut dictionary, "i", "い");
    define(&mut dictionary, "u", "う");
    define(&mut dictionary, "e", "え");
    define(&mut dictionary, "o", "お");

    // Ka row
    proof {
        reveal_strlit("ka");
        reveal_strlit("か");
        reveal_strlit("ki");
        reveal_strlit("き");
        reveal_strlit("ku");
        reveal_strlit("く");
        reveal_strlit("ke");
        reveal_strlit("け");
        reveal_strlit("ko");
        reveal_strlit("こ");
    }
    define(&mut dictionary, "ka", "か");
    define(&mut dictionary, "ki", "き");
    define(&mut dictionary, "ku", "く");
    define(&mut dictionary, "ke", "け");
    define(&mut dictionary, "ko", "こ");

    // Sa row
    proof {
        reveal_strlit("sa");
        reveal_strlit("さ");
        reveal_strlit("si");
        reveal_strlit("し");
        reveal_strlit("shi");
        reveal_strlit("su");
        reveal_strlit("す");
        reveal_strlit("se");
        reveal_strlit("せ");
        reveal_strlit("so");
        reveal_strlit("そ");
    }
    define(&mut dictionary, "sa", "さ");
    define(&mut dictionary, "si", "し");
    define(&mut dictionary, "shi", "し");
    define(&mut dictionary, "su", "す");
    define(&mut dictionary, "se", "せ");
    define(&mut dictionary, "so", "そ");

    // Ta row
    proof {
        reveal_strlit("ta");
        reveal_strlit("た");
        reveal_strlit("ti");
        reveal_strlit("ち");
        reveal_strlit("chi");
        reveal_strlit("tu");
        reveal_strlit("つ");
        reveal_strlit("tsu");
        reveal_strlit("te");
        reveal_strlit("て");
        reveal_strlit("to");
        reveal_strlit("と");
    }
    define(&mut dictionary, "ta", "た");
    define(&mut dictionary, "ti", "ち");
    define(&mut dictionary, "chi", "ち");
    define(&mut dictionary, "tu", "つ");
    define(&mut dictionary, "tsu", "つ");
    define(&mut dictionary, "te", "て");
    define(&mut dictionary, "to", "と");

    // Na row
    proof {
        reveal_strlit("na");
        reveal_strlit("な");
        reveal_strlit("ni");
        reveal_strlit("に");
        reveal_strlit("nu");
        reveal_strlit("ぬ");
        reveal_strlit("ne");
        reveal_strlit("ね");
        reveal_strlit("no");
        reveal_strlit("の");
    }
    define(&mut dictionary, "na", "な");
    define(&mut dictionary, "ni", "に");
    define(&mut dictionary, "nu", "ぬ");
    define(&mut dictionary, "ne", "ね");
    define(&mut dictionary, "no", "の");

    // Ha row
    proof {
        reveal_strlit("ha");
        reveal_strlit("は");
        reveal_strlit("hi");
        reveal_strlit("ひ");
        reveal_strlit("hu");
        reveal_strlit("ふ");
        reveal_strlit("fu");
        reveal_strlit("he");
        reveal_strlit("へ");
        reveal_strlit("ho");
        reveal_strlit("ほ");
    }
    define(&mut dictionary, "ha", "は");
    define(&mut dictionary, "hi", "ひ");
    define(&mut dictionary, "hu", "ふ");
    define(&mut dictionary, "fu", "ふ");
    define(&mut dictionary, "he", "へ");
    define(&mut dictionary, "ho", "ほ");

    // Ma row
    proof {
        reveal_strlit("ma");
        reveal_strlit("ま");
        reveal_strlit("mi");
        reveal_strlit("み");
        reveal_strlit("mu");
        reveal_strlit("む");
        reveal_strlit("me");
        reveal_strlit("め");
        reveal_strlit("mo");
        reveal_strlit("も");
    }
    define(&mut dictionary, "ma", "ま");
    define(&mut dictionary, "mi", "み");
    define(&mut dictionary, "mu", "む");
    define(&mut dictionary, "me", "め");
    define(&mut dictionary, "mo", "も");

    // Ya row
    proof {
        reveal_strlit("ya");
        reveal_strlit("や");
        reveal_strlit("yu");
        reveal_strlit("ゆ");
        reveal_strlit("yo");
        reveal_strlit("よ");
    }
    define(&mut dictionary, "ya", "や");
    define(&mut dictionary, "yu", "ゆ");
    define(&mut dictionary, "yo", "よ");

    // Ra row
    proof {
        reveal_strlit("ra");
        reveal_strlit("ら");
        reveal_strlit("ri");
        reveal_strlit("り");
        reveal_strlit("ru");
        reveal_strlit("る");
        reveal_strlit("re");
        reveal_strlit("れ");
        reveal_strlit("ro");
        reveal_strlit("ろ");
    }
    define(&mut dictionary, "ra", "ら");
    define(&mut dictionary, "ri", "り");
    define(&mut dictionary, "ru", "る");
    define(&mut dictionary, "re", "れ");
    define(&mut dictionary, "ro", "ろ");

    // Wa row and the syllabic n
    proof {
        reveal_strlit("wa");
        reveal_strlit("わ");
        reveal_strlit("wo");
        reveal_strlit("を");
        reveal_strlit("n");
        reveal_strlit("ん");
    }
    define(&mut dictionary, "wa", "わ");
    define(&mut dictionary, "wo", "を");
    define(&mut dictionary, "n", "ん");

    dictionary
}

/// In the romaji table every key is made of ASCII letters and every output
/// begins with a character that is not one: the table is well formed, and no
/// key is equal to an output, be it another key's or its own.
pub proof fn law_no_key_is_an_output()
    ensures
        well_formed_table(romaji_table()),
        forall|key: Seq<char>, other: Seq<char>|
            #![trigger romaji_table().dom().contains(key), romaji_table().dom().contains(other)]
            romaji_table().dom().contains(key) && romaji_table().dom().contains(other)
                ==> romaji_table()[other] != key,
{
    reveal_strlit("a");
    reveal_strlit("あ");
    reveal_strlit("i");
    reveal_strlit("い");
    reveal_strlit("u");
    reveal_strlit("う");
    reveal_strlit("e");
    reveal_strlit("え");
    reveal_strlit("o");
    reveal_strlit("お");
    reveal_strlit("ka");
    reveal_strlit("か");
    reveal_strlit("ki");
    reveal_strlit("き");
    reveal_strlit("ku");
    reveal_strlit("く");
    reveal_strlit("ke");
    reveal_strlit("け");
    reveal_strlit("ko");
    reveal_strlit("こ");
    reveal_strlit("sa");
    reveal_strlit("さ");
    reveal_strlit("si");
    reveal_strlit("し");
    reveal_strlit("shi");
    reveal_strlit("su");
    reveal_strlit("す");
    reveal_strlit("se");
    reveal_strlit("せ");
    reveal_strlit("so");
    reveal_strlit("そ");
    reveal_strlit("ta");
    reveal_strlit("た");
    reveal_strlit("ti");
    reveal_strlit("ち");
    reveal_strlit("chi");
    reveal_strlit("tu");
    reveal_strlit("つ");
    reveal_strlit("tsu");
    reveal_strlit("te");
    reveal_strlit("て");
    reveal_strlit("to");
    reveal_strlit("と");
    reveal_strlit("na");
    reveal_strlit("な");
    reveal_strlit("ni");
    reveal_strlit("に");
    reveal_strlit("nu");
    reveal_strlit("ぬ");
    reveal_strlit("ne");
    reveal_strlit("ね");
    reveal_strlit("no");
    reveal_strlit("の");
    reveal_strlit("ha");
    reveal_strlit("は");
    reveal_strlit("hi");
    reveal_strlit("ひ");
    reveal_strlit("hu");
    reveal_strlit("ふ");
    reveal_strlit("fu");
    reveal_strlit("he");
    reveal_strlit("へ");
    reveal_strlit("ho");
    reveal_strlit("ほ");
    reveal_strlit("ma");
    reveal_strlit("ま");
    reveal_strlit("mi");
    reveal_strlit("み");
    reveal_strlit("mu");
    reveal_strlit("む");
    reveal_strlit("me");
    reveal_strlit("め");
    reveal_strlit("mo");
    reveal_strlit("も");
    reveal_strlit("ya");
    reveal_strlit("や");
    reveal_strlit("yu");
    reveal_strlit("ゆ");
    reveal_strlit("yo");
    reveal_strlit("よ");
    reveal_strlit("ra");
    reveal_strlit("ら");
    reveal_strlit("ri");
    reveal_strlit("り");
    reveal_strlit("ru");
    reveal_strlit("る");
    reveal_strlit("re");
    reveal_strlit("れ");
    reveal_strlit("ro");
    reveal_strlit("ろ");
    reveal_strlit("wa");
    reveal_strlit("わ");
    reveal_strlit("wo");
    reveal_strlit("を");
    reveal_strlit("n");
    reveal_strlit("ん");
    assert forall|key: Seq<char>| #[trigger] romaji_table().dom().contains(key) implies is_key(key)
        && romaji_table()[key].len() > 0 && !is_ascii_letter(romaji_table()[key][0]) by {}
    assert forall|key: Seq<char>, other: Seq<char>|
        #![trigger romaji_table().dom().contains(key), romaji_table().dom().contains(other)]
        romaji_table().dom().contains(key) && romaji_table().dom().contains(
            other,
        ) implies romaji_table()[other] != key by {
        assert(is_ascii_letter(key[0]));
        assert(!is_ascii_letter(romaji_table()[other][0]));
    }
}

} // verus!
