use novakey::ambiguity::{ambiguity_table, AmbiguityTable};
use novakey::random::RandomSource;

#[test]
fn table_holds_the_confusable_glyphs() {
    let table = ambiguity_table();
    assert_eq!(table.candidates('l'), Some(&vec!['l', 'I', '|']));
    assert_eq!(table.candidates('1'), Some(&vec!['l', '1', 'I']));
    assert_eq!(table.candidates('I'), Some(&vec!['l', 'I', '|']));
    assert_eq!(table.candidates('O'), Some(&vec!['O', '0']));
    assert_eq!(table.candidates('0'), Some(&vec!['O', '0']));
    assert_eq!(table.candidates(' '), Some(&vec![' ', '\u{3000}']));
}

#[test]
fn other_symbols_have_no_candidates() {
    let table = ambiguity_table();
    for symbol in ['a', '2', 'o', 'L', 'i', '|', '!', '\u{3000}', '\u{8}'] {
        assert_eq!(table.candidates(symbol), None);
        assert_eq!(table.substitute(symbol, 0), None);
        assert_eq!(table.substitute(symbol, 17), None);
    }
}

#[test]
fn substitute_picks_the_candidate_at_the_draw() {
    let table = ambiguity_table();
    assert_eq!(table.substitute('l', 0), Some('l'));
    assert_eq!(table.substitute('l', 1), Some('I'));
    assert_eq!(table.substitute('l', 2), Some('|'));
    assert_eq!(table.substitute('1', 1), Some('1'));
    assert_eq!(table.substitute('O', 1), Some('0'));
    assert_eq!(table.substitute(' ', 0), Some(' '));
    assert_eq!(table.substitute(' ', 1), Some('　'));
}

#[test]
fn convert_gives_a_candidate_or_nothing() {
    let table = ambiguity_table();
    let mut source = RandomSource::seeded(3);
    for _ in 0..100 {
        let chosen = table.convert('l', &mut source).unwrap();
        assert!(['l', 'I', '|'].contains(&chosen));
        let chosen = table.convert(' ', &mut source).unwrap();
        assert!([' ', '　'].contains(&chosen));
        assert_eq!(table.convert('a', &mut source), None);
    }
}

#[test]
fn convert_reaches_every_candidate_of_the_letter_l() {
    let table = ambiguity_table();
    let mut source = RandomSource::seeded(11);
    let trials = 30000;
    let mut counts = [0usize; 3];
    for _ in 0..trials {
        let chosen = table.convert('l', &mut source).unwrap();
        counts[['l', 'I', '|'].iter().position(|c| *c == chosen).unwrap()] += 1;
    }
    for count in counts {
        assert!(count > trials / 3 - trials / 30, "count {}", count);
        assert!(count < trials / 3 + trials / 30, "count {}", count);
    }
}

#[test]
fn empty_candidate_list_is_refused() {
    let mut table = AmbiguityTable::new();
    assert!(!table.insert('x', Vec::new()));
    assert_eq!(table.candidates('x'), None);
    assert!(table.insert('x', vec!['x', '×']));
    assert!(!table.insert('x', Vec::new()));
    assert_eq!(table.candidates('x'), Some(&vec!['x', '×']));
}

#[test]
fn later_list_replaces_the_earlier_one() {
    let mut table = AmbiguityTable::new();
    assert!(table.insert('x', vec!['x', '×']));
    assert!(table.insert('y', vec!['y']));
    assert!(table.insert('x', vec!['X']));
    assert_eq!(table.candidates('x'), Some(&vec!['X']));
    assert_eq!(table.candidates('y'), Some(&vec!['y']));
    assert_eq!(table.substitute('x', 0), Some('X'));
}

#[test]
fn choose_index_stays_inside_the_list() {
    let mut source = RandomSource::seeded(5);
    for len in 1..50usize {
        for _ in 0..50 {
            let index = source.choose_index(len).unwrap();
            assert!(index < len);
        }
    }
    assert_eq!(source.choose_index(1), Some(0));
}

#[test]
fn choose_index_has_nothing_to_choose_in_an_empty_list() {
    let mut source = RandomSource::seeded(5);
    assert_eq!(source.choose_index(0), None);
}

#[test]
fn choose_index_reaches_every_position() {
    let mut source = RandomSource::seeded(8);
    let mut seen = [false; 5];
    for _ in 0..1000 {
        seen[source.choose_index(5).unwrap()] = true;
    }
    assert_eq!(seen, [true; 5]);
}

#[test]
fn same_seed_gives_the_same_choices() {
    let mut first = RandomSource::seeded(42);
    let mut second = RandomSource::seeded(42);
    for len in 1..200usize {
        assert_eq!(first.choose_index(len), second.choose_index(len));
    }
}
