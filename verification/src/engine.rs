use crate::ambiguity::{draw_fits, substitute_of, well_formed_choices, AmbiguityTable};
use crate::dictionary::{has_completion, well_formed_table, Dictionary};
use crate::random::RandomSource;
use crate::symbol::{all_ascii_letters, classify, kind_of, SymbolKind, SPACE};
use crate::text::{string_of, string_of_char, texts};
use vstd::prelude::*;

verus! {

/// Whether the engine holds letters that still await resolution.
#[derive(Clone, Copy, Debug, PartialEq, Eq, Structural)]
pub enum State {
    /// The buffer holds no letter.
    Empty,
    /// The buffer holds at least one letter, and some key may yet complete it.
    Pending,
}

/// The state that goes with a buffer.
pub open spec fn state_of(buffer: Seq<char>) -> State {
    if buffer.len() == 0 {
        State::Empty
    } else {
        State::Pending
    }
}

/// What one step leaves behind: the buffer, and the texts to insert, in order.
pub struct Outcome {
    /// The letters that are pending after the step.
    pub buffer: Seq<char>,
    /// The texts that the step emits, in the order in which to insert them.
    pub emits: Seq<Seq<char>>,
}

/// A buffer may rest between steps when it holds ASCII letters only and is
/// either empty or the beginning of some key.
pub open spec fn live_buffer(dictionary: Map<Seq<char>, Seq<char>>, buffer: Seq<char>) -> bool {
    &&& all_ascii_letters(buffer)
    &&& buffer.len() == 0 || has_completion(dictionary, buffer)
}

/// Flushing emits the buffer as it stands, unless it is empty, and clears it.
pub open spec fn flush_outcome(buffer: Seq<char>) -> Outcome {
    Outcome {
        buffer: Seq::empty(),
        emits: if buffer.len() > 0 {
            seq![buffer]
        } else {
            Seq::empty()
        },
    }
}

/// A space resolves the buffer: a buffer that is a key gives its output and
/// the space is dropped; any other buffer is emitted as it stands, followed
/// by a space; on an empty buffer the space alone is emitted. The space is
/// emitted as it was typed: no candidate ever stands in for it.
pub open spec fn space_outcome(dictionary: Map<Seq<char>, Seq<char>>, buffer: Seq<char>) -> Outcome {
    Outcome {
        buffer: Seq::empty(),
        emits: if buffer.len() == 0 {
            seq![seq![SPACE]]
        } else if dictionary.dom().contains(buffer) {
            seq![dictionary[buffer]]
        } else {
            seq![buffer, seq![SPACE]]
        },
    }
}

/// A backspace removes the last buffered letter, if there is one, and emits
/// nothing.
pub open spec fn backspace_outcome(buffer: Seq<char>) -> Outcome {
    Outcome {
        buffer: if buffer.len() > 0 {
            buffer.drop_last()
        } else {
            buffer
        },
        emits: Seq::empty(),
    }
}

/// A letter joins the buffer. A buffer that has become a key gives its output
/// at once; one that no key can complete any more is emitted as it stands;
/// otherwise the buffer is held and nothing is emitted.
pub open spec fn letter_outcome(
    dictionary: Map<Seq<char>, Seq<char>>,
    buffer: Seq<char>,
    letter: char,
) -> Outcome {
    let grown = buffer.push(letter);
    if dictionary.dom().contains(grown) {
        Outcome { buffer: Seq::empty(), emits: seq![dictionary[grown]] }
    } else if !has_completion(dictionary, grown) {
        Outcome { buffer: Seq::empty(), emits: seq![grown] }
    } else {
        Outcome { buffer: grown, emits: Seq::empty() }
    }
}

/// The symbol emitted for an unbuffered `symbol`: the candidate that `draw`
/// selects where the table holds the symbol, else the symbol itself.
pub open spec fn glyph_for(ambiguity: Map<char, Seq<char>>, symbol: char, draw: int) -> char {
    match substitute_of(ambiguity, symbol, draw) {
        Some(candidate) => candidate,
        None => symbol,
    }
}

/// Any other symbol flushes the buffer and is then emitted itself, or one of
/// its candidates in its place.
pub open spec fn glyph_outcome(
    ambiguity: Map<char, Seq<char>>,
    buffer: Seq<char>,
    symbol: char,
    draw: int,
) -> Outcome {
    Outcome {
        buffer: Seq::empty(),
        emits: flush_outcome(buffer).emits.push(seq![glyph_for(ambiguity, symbol, draw)]),
    }
}

/// The transition of the engine on one input symbol. `draw` is the position
/// drawn in the candidate list of the symbol; only a symbol that is neither a
/// space, a backspace nor a letter makes use of it.
pub open spec fn step_outcome(
    dictionary: Map<Seq<char>, Seq<char>>,
    ambiguity: Map<char, Seq<char>>,
    buffer: Seq<char>,
    symbol: char,
    draw: int,
) -> Outcome {
    match kind_of(symbol) {
        SymbolKind::Space => space_outcome(dictionary, buffer),
        SymbolKind::Backspace => backspace_outcome(buffer),
        SymbolKind::Letter => letter_outcome(dictionary, buffer, symbol),
        SymbolKind::Other => glyph_outcome(ambiguity, buffer, symbol, draw),
    }
}

/// Whether `draw` can be used in a step on `symbol`: where the step consults
/// the table, the draw is a position in the symbol's candidate list.
pub open spec fn draw_suits(ambiguity: Map<char, Seq<char>>, symbol: char, draw: int) -> bool {
    kind_of(symbol) == SymbolKind::Other ==> draw_fits(ambiguity, symbol, draw)
}

/// What the engine is made of, as plain values.
pub struct EngineView {
    /// The dictionary, as a mapping from keys to outputs.
    pub dictionary: Map<Seq<char>, Seq<char>>,
    /// The table of ambiguous symbols, as a mapping from symbols to candidates.
    pub ambiguity: Map<char, Seq<char>>,
    /// The letters that are pending.
    pub buffer: Seq<char>,
}

/// The incremental buffer engine of one input session. It owns the pending
/// buffer and its random source; the two tables are read-only and may be
/// shared by any number of engines.
pub struct Engine<'a> {
    dictionary: &'a Dictionary,
    ambiguity: &'a AmbiguityTable,
    buffer: Vec<char>,
    source: RandomSource,
}

impl<'a> View for Engine<'a> {
    type V = EngineView;

    closed spec fn view(&self) -> EngineView {
        EngineView {
            dictionary: self.dictionary@,
            ambiguity: self.ambiguity@,
            buffer: self.buffer@,
        }
    }
}

proof fn lemma_shorter_buffer_is_live(dictionary: Map<Seq<char>, Seq<char>>, buffer: Seq<char>)
    requires
        buffer.len() > 0,
        has_completion(dictionary, buffer),
    ensures
        has_completion(dictionary, buffer.drop_last()),
{
    let key = choose|key: Seq<char>| #[trigger]
        dictionary.dom().contains(key) && buffer.is_prefix_of(key);
    assert(buffer.drop_last().is_prefix_of(key));
}

impl<'a> Engine<'a> {
    /// Both tables are well formed and the buffer may rest as it is.
    pub open spec fn wf(&self) -> bool {
        &&& well_formed_table(self@.dictionary)
        &&& well_formed_choices(self@.ambiguity)
        &&& live_buffer(self@.dictionary, self@.buffer)
    }

    /// An engine over the given tables, with an empty buffer.
    pub fn new(
        dictionary: &'a Dictionary,
        ambiguity: &'a AmbiguityTable,
        source: RandomSource,
    ) -> (engine: Engine<'a>)
        requires
            dictionary.wf(),
            ambiguity.wf(),
        ensures
            engine@ == (EngineView {
                dictionary: dictionary@,
                ambiguity: ambiguity@,
                buffer: Seq::empty(),
            }),
            engine.wf(),
    {
        Engine { dictionary, ambiguity, buffer: Vec::new(), source }
    }

    /// Whether letters are pending.
    pub fn state(&self) -> (state: State)
        ensures
            state == state_of(self@.buffer),
    {
        if self.buffer.len() == 0 {
            State::Empty
        } else {
            State::Pending
        }
    }

    /// The letters that are pending, as text.
    pub fn buffer(&self) -> (pending: String)
        ensures
            pending@ == self@.buffer,
    {
        string_of(&self.buffer)
    }

    /// The dictionary that the engine matches against.
    pub fn dictionary(&self) -> (dictionary: &'a Dictionary)
        ensures
            dictionary@ == self@.dictionary,
    {
        self.dictionary
    }

    /// The table from which the engine substitutes unbuffered symbols.
    pub fn ambiguity(&self) -> (ambiguity: &'a AmbiguityTable)
        ensures
            ambiguity@ == self@.ambiguity,
    {
        self.ambiguity
    }

    /// Emits the buffer as it stands and clears it. An empty buffer emits
    /// nothing.
    pub fn flush(&mut self) -> (emits: Vec<String>)
        requires
            old(self).wf(),
        ensures
            final(self).wf(),
            final(self)@.dictionary == old(self)@.dictionary,
            final(self)@.ambiguity == old(self)@.ambiguity,
            final(self)@.buffer == flush_outcome(old(self)@.buffer).buffer,
            texts(emits@) == flush_outcome(old(self)@.buffer).emits,
    {
        let mut emits: Vec<String> = Vec::new();
        if self.buffer.len() > 0 {
            emits.push(string_of(&self.buffer));
            self.buffer.clear();
        }
        emits
    }

    fn resolve(&mut self) -> (emits: Vec<String>)
        requires
            old(self).wf(),
        ensures
            final(self).wf(),
            final(self)@.dictionary == old(self)@.dictionary,
            final(self)@.ambiguity == old(self)@.ambiguity,
            final(self)@.buffer == space_outcome(old(self)@.dictionary, old(self)@.buffer).buffer,
            texts(emits@) == space_outcome(old(self)@.dictionary, old(self)@.buffer).emits,
    {
        let mut emits: Vec<String> = Vec::new();
        if self.buffer.len() > 0 {
            let mapped: Option<String> = match self.dictionary.lookup_chars(&self.buffer) {
                Some(value) => Some(value.clone()),
                None => None,
            };
            match mapped {
                Some(value) => {
                    emits.push(value);
                },
                None => {
                    emits.push(string_of(&self.buffer));
                    emits.push(string_of_char(SPACE));
                },
            }
            self.buffer.clear();
        } else {
            emits.push(string_of_char(SPACE));
        }
        emits
    }

    fn delete_back(&mut self) -> (emits: Vec<String>)
        requires
            old(self).wf(),
        ensures
            final(self).wf(),
            final(self)@.dictionary == old(self)@.dictionary,
            final(self)@.ambiguity == old(self)@.ambiguity,
            final(self)@.buffer == backspace_outcome(old(self)@.buffer).buffer,
            texts(emits@) == backspace_outcome(old(self)@.buffer).emits,
    {
        if self.buffer.len() > 0 {
            proof {
                lemma_shorter_buffer_is_live(self@.dictionary, self@.buffer);
            }
            self.buffer.pop();
        }
        Vec::new()
    }

    fn append(&mut self, letter: char) -> (emits: Vec<String>)
        requires
            old(self).wf(),
            kind_of(letter) == SymbolKind::Letter,
        ensures
            final(self).wf(),
            final(self)@.dictionary == old(self)@.dictionary,
            final(self)@.ambiguity == old(self)@.ambiguity,
            final(self)@.buffer == letter_outcome(
                old(self)@.dictionary,
                old(self)@.buffer,
                letter,
            ).buffer,
            texts(emits@) == letter_outcome(
                old(self)@.dictionary,
                old(self)@.buffer,
                letter,
            ).emits,
    {
        let mut emits: Vec<String> = Vec::new();
        self.buffer.push(letter);
        let mapped: Option<String> = match self.dictionary.lookup_chars(&self.buffer) {
            Some(value) => Some(value.clone()),
            None => None,
        };
        match mapped {
            Some(value) => {
                emits.push(value);
                self.buffer.clear();
            },
            None => {
                if !self.dictionary.completes_chars(&self.buffer) {
                    emits.push(string_of(&self.buffer));
                    self.buffer.clear();
                }
            },
        }
        emits
    }

    fn pass(&mut self, symbol: char, draw: usize) -> (emits: Vec<String>)
        requires
            old(self).wf(),
            draw_fits(old(self)@.ambiguity, symbol, draw as int),
        ensures
            final(self).wf(),
            final(self)@.dictionary == old(self)@.dictionary,
            final(self)@.ambiguity == old(self)@.ambiguity,
            final(self)@.buffer == glyph_outcome(
                old(self)@.ambiguity,
                old(self)@.buffer,
                symbol,
                draw as int,
            ).buffer,
            texts(emits@) == glyph_outcome(
                old(self)@.ambiguity,
                old(self)@.buffer,
                symbol,
                draw as int,
            ).emits,
    {
        let mut emits = self.flush();
        let glyph = match self.ambiguity.substitute(symbol, draw) {
            Some(candidate) => candidate,
            None => symbol,
        };
        emits.push(string_of_char(glyph));
        emits
    }

    /// Takes one input symbol, with `draw` as the position drawn in the
    /// symbol's candidate list, and returns the texts to insert, in order.
    pub fn step_with_draw(&mut self, symbol: char, draw: usize) -> (emits: Vec<String>)
        requires
            old(self).wf(),
            draw_suits(old(self)@.ambiguity, symbol, draw as int),
        ensures
            final(self).wf(),
            final(self)@.dictionary == old(self)@.dictionary,
            final(self)@.ambiguity == old(self)@.ambiguity,
            final(self)@.buffer == step_outcome(
                old(self)@.dictionary,
                old(self)@.ambiguity,
                old(self)@.buffer,
                symbol,
                draw as int,
            ).buffer,
            texts(emits@) == step_outcome(
                old(self)@.dictionary,
                old(self)@.ambiguity,
                old(self)@.buffer,
                symbol,
                draw as int,
            ).emits,
    {
        match classify(symbol) {
            SymbolKind::Space => self.resolve(),
            SymbolKind::Backspace => self.delete_back(),
            SymbolKind::Letter => self.append(symbol),
            SymbolKind::Other => self.pass(symbol, draw),
        }
    }

    /// Takes one input symbol and returns the texts to insert, in order.
    /// Where the symbol has candidates to stand in for it, one is chosen by a
    /// draw from the engine's random source.
    pub fn step(&mut self, symbol: char) -> (emits: Vec<String>)
        requires
            old(self).wf(),
        ensures
            final(self).wf(),
            final(self)@.dictionary == old(self)@.dictionary,
            final(self)@.ambiguity == old(self)@.ambiguity,
            exists|draw: int|
                draw_suits(old(self)@.ambiguity, symbol, draw) && #[trigger] step_outcome(
                    old(self)@.dictionary,
                    old(self)@.ambiguity,
                    old(self)@.buffer,
                    symbol,
                    draw,
                ) == (Outcome { buffer: final(self)@.buffer, emits: texts(emits@) }),
    {
        let draw: usize = match classify(symbol) {
            SymbolKind::Other => self.ambiguity.draw(symbol, &mut self.source),
            _ => 0,
        };
        self.step_with_draw(symbol, draw)
    }
}

} // verus!
