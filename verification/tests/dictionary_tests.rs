use novakey::dictionary::Dictionary;
use novakey::romaji::romaji_to_hiragana;

const TABLE: [(&str, &str); 50] = [
    ("a", "あ"), ("i", "い"), ("u", "う"), ("e", "え"), ("o", "お"),
    ("ka", "か"), ("ki", "き"), ("ku", "く"), ("ke", "け"), ("ko", "こ"),
    ("sa", "さ"), ("si", "し"), ("shi", "し"), ("su", "す"), ("se", "せ"), ("so", "そ"),
    ("ta", "た"), ("ti", "ち"), ("chi", "ち"), ("tu", "つ"), ("tsu", "つ"), ("te", "て"), ("to", "と"),
    ("na", "な"), ("ni", "に"), ("nu", "ぬ"), ("ne", "ね"), ("no", "の"),
    ("ha", "は"), ("hi", "ひ"), ("hu", "ふ"), ("fu", "ふ"), ("he", "へ"), ("ho", "ほ"),
    ("ma", "ま"), ("mi", "み"), ("mu", "む"), ("me", "め"), ("mo", "も"),
    ("ya", "や"), ("yu", "ゆ"), ("yo", "よ"),
    ("ra", "ら"), ("ri", "り"), ("ru", "る"), ("re", "れ"), ("ro", "ろ"),
    ("wa", "わ"), ("wo", "を"), ("n", "ん"),
];

#[test]
fn every_key_is_matched_exactly() {
    let dictionary = romaji_to_hiragana();
    for (key, value) in TABLE {
        assert_eq!(dictionary.lookup_exact(key), Some(value), "key {}", key);
    }
}

#[test]
fn every_key_has_a_possible_completion() {
    let dictionary = romaji_to_hiragana();
    for (key, _) in TABLE {
        assert!(dictionary.has_possible_completion(key), "key {}", key);
    }
}

#[test]
fn every_beginning_of_a_key_has_a_possible_completion() {
    let dictionary = romaji_to_hiragana();
    for (key, _) in TABLE {
        for end in 0..=key.len() {
            assert!(dictionary.has_possible_completion(&key[..end]), "prefix {}", &key[..end]);
        }
    }
}

#[test]
fn absent_key_is_no_match() {
    let dictionary = romaji_to_hiragana();
    assert_eq!(dictionary.lookup_exact("x"), None);
    assert_eq!(dictionary.lookup_exact("kata"), None);
    assert_eq!(dictionary.lookup_exact(""), None);
    assert_eq!(dictionary.lookup_exact("か"), None);
}

#[test]
fn beginning_of_a_key_is_not_an_exact_match() {
    let dictionary = romaji_to_hiragana();
    for prefix in ["s", "sh", "k", "t", "ts", "c", "ch", "h", "f", "m", "y", "r", "w"] {
        assert_eq!(dictionary.lookup_exact(prefix), None, "prefix {}", prefix);
        assert!(dictionary.has_possible_completion(prefix), "prefix {}", prefix);
    }
}

#[test]
fn dead_prefix_has_no_completion() {
    let dictionary = romaji_to_hiragana();
    for prefix in ["x", "l", "q", "kk", "sha", "shia", "kaa", "nn", "b", "z", "1", " ", "あ"] {
        assert!(!dictionary.has_possible_completion(prefix), "prefix {}", prefix);
    }
}

#[test]
fn empty_prefix_is_completed_by_any_key() {
    let dictionary = romaji_to_hiragana();
    assert!(dictionary.has_possible_completion(""));
    assert!(!Dictionary::new().has_possible_completion(""));
}

#[test]
fn lookup_is_case_sensitive() {
    let dictionary = romaji_to_hiragana();
    assert_eq!(dictionary.lookup_exact("KA"), None);
    assert_eq!(dictionary.lookup_exact("Ka"), None);
    assert!(!dictionary.has_possible_completion("K"));
}

#[test]
fn both_spellings_of_a_syllable_are_keys() {
    let dictionary = romaji_to_hiragana();
    assert_eq!(dictionary.lookup_exact("si"), dictionary.lookup_exact("shi"));
    assert_eq!(dictionary.lookup_exact("ti"), dictionary.lookup_exact("chi"));
    assert_eq!(dictionary.lookup_exact("tu"), dictionary.lookup_exact("tsu"));
    assert_eq!(dictionary.lookup_exact("hu"), dictionary.lookup_exact("fu"));
}

#[test]
fn no_key_of_the_table_is_an_output() {
    for (key, _) in TABLE {
        for (_, value) in TABLE {
            assert_ne!(key, value);
        }
    }
}

#[test]
fn empty_dictionary_matches_nothing() {
    let dictionary = Dictionary::new();
    assert_eq!(dictionary.lookup_exact("a"), None);
    assert!(!dictionary.has_possible_completion("a"));
}

#[test]
fn insert_accepts_keys_of_one_to_three_letters() {
    let mut dictionary = Dictionary::new();
    assert!(dictionary.insert("a", "あ"));
    assert!(dictionary.insert("kA", "か"));
    assert!(dictionary.insert("SHI", "し"));
    assert_eq!(dictionary.lookup_exact("a"), Some("あ"));
    assert_eq!(dictionary.lookup_exact("kA"), Some("か"));
    assert_eq!(dictionary.lookup_exact("SHI"), Some("し"));
    assert_eq!(dictionary.lookup_exact("shi"), None);
}

#[test]
fn insert_refuses_a_key_of_the_wrong_shape() {
    let mut dictionary = Dictionary::new();
    assert!(!dictionary.insert("", "あ"));
    assert!(!dictionary.insert("kyaa", "きゃあ"));
    assert!(!dictionary.insert("k1", "か"));
    assert!(!dictionary.insert("k ", "か"));
    assert!(!dictionary.insert("か", "か"));
    assert!(!dictionary.has_possible_completion(""));
    assert_eq!(dictionary.lookup_exact("kyaa"), None);
    assert_eq!(dictionary.lookup_exact("k1"), None);
}

#[test]
fn insert_refuses_an_empty_output() {
    let mut dictionary = Dictionary::new();
    assert!(!dictionary.insert("ka", ""));
    assert_eq!(dictionary.lookup_exact("ka"), None);
    assert!(!dictionary.has_possible_completion("k"));
}

#[test]
fn insert_replaces_the_output_of_a_key() {
    let mut dictionary = Dictionary::new();
    assert!(dictionary.insert("ka", "か"));
    assert!(dictionary.insert("ki", "き"));
    assert!(dictionary.insert("ka", "カ"));
    assert_eq!(dictionary.lookup_exact("ka"), Some("カ"));
    assert_eq!(dictionary.lookup_exact("ki"), Some("き"));
}

#[test]
fn output_may_hold_several_characters() {
    let mut dictionary = Dictionary::new();
    assert!(dictionary.insert("kya", "きゃ"));
    assert_eq!(dictionary.lookup_exact("kya"), Some("きゃ"));
    assert!(dictionary.has_possible_completion("ky"));
}

#[test]
fn lookup_by_characters_agrees_with_lookup_by_text() {
    let dictionary = romaji_to_hiragana();
    for (key, value) in TABLE {
        let chars: Vec<char> = key.chars().collect();
        assert_eq!(dictionary.lookup_chars(&chars).map(|v| v.as_str()), Some(value));
        assert!(dictionary.completes_chars(&chars));
    }
    let dead: Vec<char> = vec!['x'];
    assert_eq!(dictionary.lookup_chars(&dead), None);
    assert!(!dictionary.completes_chars(&dead));
}
