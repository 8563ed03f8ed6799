use crate::dictionary::{exact_match, has_completion, well_formed_table};
use crate::engine::{
    backspace_outcome, flush_outcome, live_buffer, step_outcome, Outcome,
};
use crate::symbol::{all_ascii_letters, kind_of, SymbolKind, BACKSPACE};
use vstd::prelude::*;

verus! {

/// Every key of a table is found by an exact lookup, which yields the output
/// mapped to it, and every key has a possible completion: itself.
pub proof fn law_key_is_matched_and_live(dictionary: Map<Seq<char>, Seq<char>>, key: Seq<char>)
    requires
        dictionary.dom().contains(key),
    ensures
        exact_match(dictionary, key) == Some(dictionary[key]),
        has_completion(dictionary, key),
{
}

/// A letter that makes the buffer a key is matched at once: the step emits
/// the output mapped to that key and leaves the buffer empty, whether or not
/// a longer key begins with the same letters.
pub proof fn law_exact_match_is_eager(
    dictionary: Map<Seq<char>, Seq<char>>,
    ambiguity: Map<char, Seq<char>>,
    buffer: Seq<char>,
    letter: char,
    draw: int,
)
    requires
        kind_of(letter) == SymbolKind::Letter,
        dictionary.dom().contains(buffer.push(letter)),
    ensures
        step_outcome(dictionary, ambiguity, buffer, letter, draw) == (Outcome {
            buffer: Seq::empty(),
            emits: seq![dictionary[buffer.push(letter)]],
        }),
{
}

/// A letter that brings the buffer to a dead end, where no key begins with
/// what the buffer then holds, is flushed in that same step: the buffer is
/// emitted as one text, the new letter included, and is left empty.
pub proof fn law_dead_end_is_flushed_at_once(
    dictionary: Map<Seq<char>, Seq<char>>,
    ambiguity: Map<char, Seq<char>>,
    buffer: Seq<char>,
    letter: char,
    draw: int,
)
    requires
        kind_of(letter) == SymbolKind::Letter,
        !has_completion(dictionary, buffer.push(letter)),
    ensures
        step_outcome(dictionary, ambiguity, buffer, letter, draw) == (Outcome {
            buffer: Seq::empty(),
            emits: seq![buffer.push(letter)],
        }),
{
}

/// A buffer that no key begins with does not survive the next letter: the
/// step emits the buffer with that letter as one text and leaves the buffer
/// empty.
pub proof fn law_dead_buffer_is_flushed_by_next_letter(
    dictionary: Map<Seq<char>, Seq<char>>,
    ambiguity: Map<char, Seq<char>>,
    buffer: Seq<char>,
    letter: char,
    draw: int,
)
    requires
        kind_of(letter) == SymbolKind::Letter,
        buffer.len() > 0,
        !has_completion(dictionary, buffer),
    ensures
        step_outcome(dictionary, ambiguity, buffer, letter, draw) == (Outcome {
            buffer: Seq::empty(),
            emits: seq![buffer.push(letter)],
        }),
{
    assert forall|key: Seq<char>| #[trigger]
        dictionary.dom().contains(key) implies !buffer.push(letter).is_prefix_of(key) by {
        if buffer.push(letter).is_prefix_of(key) {
            assert(buffer.is_prefix_of(key));
        }
    }
}

/// Flushing an empty buffer emits nothing, and so does a second flush after
/// any flush.
pub proof fn law_flush_is_idempotent(buffer: Seq<char>)
    ensures
        flush_outcome(Seq::empty()) == (Outcome { buffer: Seq::empty(), emits: Seq::empty() }),
        flush_outcome(flush_outcome(buffer).buffer) == (Outcome {
            buffer: Seq::empty(),
            emits: Seq::empty(),
        }),
{
}

/// A backspace on an empty buffer changes nothing and emits nothing.
pub proof fn law_backspace_on_empty_is_no_op(
    dictionary: Map<Seq<char>, Seq<char>>,
    ambiguity: Map<char, Seq<char>>,
    draw: int,
)
    ensures
        step_outcome(dictionary, ambiguity, Seq::empty(), BACKSPACE, draw) == (Outcome {
            buffer: Seq::empty(),
            emits: Seq::empty(),
        }),
        backspace_outcome(Seq::empty()) == (Outcome { buffer: Seq::empty(), emits: Seq::empty() }),
{
}

/// The outcomes of feeding `symbols` one at a time, the first of them to an
/// engine that holds `buffer`; `draws` gives the draw for each step.
pub open spec fn run_outcomes(
    dictionary: Map<Seq<char>, Seq<char>>,
    ambiguity: Map<char, Seq<char>>,
    buffer: Seq<char>,
    symbols: Seq<char>,
    draws: Seq<int>,
) -> Seq<Outcome>
    decreases symbols.len(),
{
    if symbols.len() == 0 {
        Seq::empty()
    } else {
        let first = step_outcome(dictionary, ambiguity, buffer, symbols[0], draws[0]);
        seq![first] + run_outcomes(
            dictionary,
            ambiguity,
            first.buffer,
            symbols.skip(1),
            draws.skip(1),
        )
    }
}

/// Whether some beginning of `key`, shorter than `key` and not empty, is a key
/// of its own.
pub open spec fn begins_with_shorter_key(dictionary: Map<Seq<char>, Seq<char>>, key: Seq<char>) -> bool {
    exists|n: int| 0 < n < key.len() && dictionary.dom().contains(#[trigger] key.take(n))
}

/// What typing `key` letter by letter into an empty buffer gives: each letter
/// but the last is held and emits nothing; the last emits the output mapped
/// to `key` and leaves the buffer empty.
pub open spec fn round_trip(dictionary: Map<Seq<char>, Seq<char>>, key: Seq<char>) -> Seq<Outcome> {
    Seq::new(
        key.len(),
        |i: int|
            if i + 1 < key.len() {
                Outcome { buffer: key.take(i + 1), emits: Seq::empty() }
            } else {
                Outcome { buffer: Seq::empty(), emits: seq![dictionary[key]] }
            },
    )
}

proof fn lemma_round_trip_from(
    dictionary: Map<Seq<char>, Seq<char>>,
    ambiguity: Map<char, Seq<char>>,
    key: Seq<char>,
    draws: Seq<int>,
    i: int,
)
    requires
        dictionary.dom().contains(key),
        all_ascii_letters(key),
        !begins_with_shorter_key(dictionary, key),
        0 <= i <= key.len(),
        draws.len() == key.len() - i,
    ensures
        run_outcomes(dictionary, ambiguity, key.take(i), key.skip(i), draws)
            == round_trip(dictionary, key).skip(i),
    decreases key.len() - i,
{
    let expected = round_trip(dictionary, key);
    let run = run_outcomes(dictionary, ambiguity, key.take(i), key.skip(i), draws);
    if i < key.len() {
        let first = step_outcome(dictionary, ambiguity, key.take(i), key.skip(i)[0], draws[0]);
        let after = run_outcomes(
            dictionary,
            ambiguity,
            first.buffer,
            key.skip(i).skip(1),
            draws.skip(1),
        );
        assert(run == seq![first] + after);
        assert(first == expected[i]) by {
            assert(key.take(i).push(key[i]) =~= key.take(i + 1));
            if i + 1 < key.len() {
                assert(key.take(i + 1).is_prefix_of(key));
            } else {
                assert(key.take(i + 1) =~= key);
            }
        }
        assert(key.skip(i).skip(1) =~= key.skip(i + 1));
        if i + 1 < key.len() {
            lemma_round_trip_from(dictionary, ambiguity, key, draws.skip(1), i + 1);
        }
        assert(after == expected.skip(i + 1));
        assert(expected.skip(i) =~= seq![expected[i]] + expected.skip(i + 1));
    } else {
        assert(expected.skip(i) =~= Seq::<Outcome>::empty());
    }
}

/// Typing the letters of a key one at a time into an empty buffer emits
/// nothing until the last letter, and on the last letter emits exactly the
/// output mapped to the key. This holds of a key no shorter key begins; where
/// one does, the shorter key is matched first.
pub proof fn law_key_round_trip(
    dictionary: Map<Seq<char>, Seq<char>>,
    ambiguity: Map<char, Seq<char>>,
    key: Seq<char>,
    draws: Seq<int>,
)
    requires
        dictionary.dom().contains(key),
        all_ascii_letters(key),
        !begins_with_shorter_key(dictionary, key),
        draws.len() == key.len(),
    ensures
        run_outcomes(dictionary, ambiguity, Seq::empty(), key, draws) == round_trip(
            dictionary,
            key,
        ),
{
    lemma_round_trip_from(dictionary, ambiguity, key, draws, 0);
    assert(key.take(0) =~= Seq::<char>::empty());
    assert(key.skip(0) =~= key);
}

/// Whatever the symbol and the draw, a step leaves a buffer that may rest:
/// ASCII letters only, and either empty or the beginning of some key.
pub proof fn law_step_keeps_buffer_live(
    dictionary: Map<Seq<char>, Seq<char>>,
    ambiguity: Map<char, Seq<char>>,
    buffer: Seq<char>,
    symbol: char,
    draw: int,
)
    requires
        live_buffer(dictionary, buffer),
    ensures
        live_buffer(dictionary, step_outcome(dictionary, ambiguity, buffer, symbol, draw).buffer),
{
    if kind_of(symbol) == SymbolKind::Backspace && buffer.len() > 1 {
        let key = choose|key: Seq<char>| #[trigger]
            dictionary.dom().contains(key) && buffer.is_prefix_of(key);
        assert(buffer.drop_last().is_prefix_of(key));
    }
}

/// A buffer that may rest never holds more letters than the longest key has.
pub proof fn law_resting_buffer_is_short(dictionary: Map<Seq<char>, Seq<char>>, buffer: Seq<char>)
    requires
        well_formed_table(dictionary),
        live_buffer(dictionary, buffer),
    ensures
        buffer.len() <= 3,
{
}

/// A step that emits anything leaves the buffer empty, and no step emits
/// more than two texts.
pub proof fn law_emitting_step_clears_buffer(
    dictionary: Map<Seq<char>, Seq<char>>,
    ambiguity: Map<char, Seq<char>>,
    buffer: Seq<char>,
    symbol: char,
    draw: int,
)
    ensures
        ({
            let outcome = step_outcome(dictionary, ambiguity, buffer, symbol, draw);
            &&& outcome.emits.len() <= 2
            &&& outcome.emits.len() > 0 ==> outcome.buffer.len() == 0
        }),
{
}

/// Only a symbol that is neither a space, a backspace nor a letter makes the
/// outcome of a step depend on the draw.
pub proof fn law_draw_matters_to_other_symbols_only(
    dictionary: Map<Seq<char>, Seq<char>>,
    ambiguity: Map<char, Seq<char>>,
    buffer: Seq<char>,
    symbol: char,
    draw: int,
    other_draw: int,
)
    requires
        kind_of(symbol) != SymbolKind::Other,
    ensures
        step_outcome(dictionary, ambiguity, buffer, symbol, draw) == step_outcome(
            dictionary,
            ambiguity,
            buffer,
            symbol,
            other_draw,
        ),
{
}

} // verus!
