use crate::random::RandomSource;
use vstd::prelude::*;

verus! {

/// A table is well formed when every symbol in it has at least one candidate.
pub open spec fn well_formed_choices(table: Map<char, Seq<char>>) -> bool {
    forall|symbol: char| #[trigger] table.dom().contains(symbol) ==> table[symbol].len() > 0
}

/// Whether `draw` is a position in the candidate list of `symbol`. For a
/// symbol that the table does not hold, every draw will do: none is used.
pub open spec fn draw_fits(table: Map<char, Seq<char>>, symbol: char, draw: int) -> bool {
    table.dom().contains(symbol) ==> 0 <= draw < table[symbol].len()
}

/// The candidate that `draw` selects for `symbol`, if the table holds `symbol`.
pub open spec fn substitute_of(table: Map<char, Seq<char>>, symbol: char, draw: int) -> Option<
    char,
> {
    if table.dom().contains(symbol) {
        Some(table[symbol][draw])
    } else {
        None
    }
}

struct Choices {
    symbol: char,
    candidates: Vec<char>,
}

/// For each ambiguous input symbol, the ordered list of symbols that may
/// stand in for it.
pub struct AmbiguityTable {
    entries: Vec<Choices>,
}

/// The mapping held by a list of entries; a later entry replaces an earlier
/// one for the same symbol.
spec fn choices_of(entries: Seq<Choices>) -> Map<char, Seq<char>>
    decreases entries.len(),
{
    if entries.len() == 0 {
        Map::empty()
    } else {
        choices_of(entries.drop_last()).insert(entries.last().symbol, entries.last().candidates@)
    }
}

impl View for AmbiguityTable {
    type V = Map<char, Seq<char>>;

    closed spec fn view(&self) -> Map<char, Seq<char>> {
        choices_of(self.entries@)
    }
}

impl AmbiguityTable {
    /// Every symbol of the table has at least one candidate.
    pub open spec fn wf(&self) -> bool {
        well_formed_choices(self@)
    }

    /// A table without entries.
    pub fn new() -> (table: AmbiguityTable)
        ensures
            table@ == Map::<char, Seq<char>>::empty(),
            table.wf(),
    {
        AmbiguityTable { entries: Vec::new() }
    }

    /// Gives `symbol` the candidate list `candidates`, replacing the list it
    /// had before. An empty list is refused and leaves the table as it was.
    pub fn insert(&mut self, symbol: char, candidates: Vec<char>) -> (accepted: bool)
        requires
            old(self).wf(),
        ensures
            accepted == (candidates@.len() > 0),
            final(self)@ == if accepted {
                old(self)@.insert(symbol, candidates@)
            } else {
                old(self)@
            },
            final(self).wf(),
    {
        if candidates.len() == 0 {
            return false;
        }
        let ghost before = self.entries@;
        self.entries.push(Choices { symbol, candidates });
        assert(self.entries@.drop_last() == before);
        true
    }

    /// The candidate list of `symbol`, if the table holds `symbol`.
    pub fn candidates(&self, symbol: char) -> (found: Option<&Vec<char>>)
        ensures
            found is Some == self@.dom().contains(symbol),
            found matches Some(list) ==> list@ == self@[symbol],
    {
        let mut i: usize = self.entries.len();
        assert(self.entries@.take(i as int) == self.entries@);
        while i > 0
            invariant
                i <= self.entries@.len(),
                choices_of(self.entries@).dom().contains(symbol) == choices_of(
                    self.entries@.take(i as int),
                ).dom().contains(symbol),
                choices_of(self.entries@).dom().contains(symbol) ==> choices_of(
                    self.entries@,
                )[symbol] == choices_of(self.entries@.take(i as int))[symbol],
            decreases i,
        {
            i = i - 1;
            assert(self.entries@.take(i + 1).drop_last() == self.entries@.take(i as int));
            if self.entries[i].symbol == symbol {
                return Some(&self.entries[i].candidates);
            }
        }
        None
    }

    /// The candidate at position `draw` in the list of `symbol`; `None` for a
    /// symbol that the table does not hold.
    pub fn substitute(&self, symbol: char, draw: usize) -> (chosen: Option<char>)
        requires
            draw_fits(self@, symbol, draw as int),
        ensures
            chosen == substitute_of(self@, symbol, draw as int),
    {
        match self.candidates(symbol) {
            Some(list) => Some(list[draw]),
            None => None,
        }
    }

    /// Draws a position in the candidate list of `symbol` from `source`, each
    /// position being equally likely. For a symbol that the table does not
    /// hold nothing is drawn, and the result is zero.
    pub fn draw(&self, symbol: char, source: &mut RandomSource) -> (draw: usize)
        requires
            self.wf(),
        ensures
            draw_fits(self@, symbol, draw as int),
            !self@.dom().contains(symbol) ==> draw == 0,
    {
        match self.candidates(symbol) {
            Some(list) => match source.choose_index(list.len()) {
                Some(index) => index,
                None => 0,
            },
            None => 0,
        }
    }

    /// Chooses one candidate of `symbol`, each being equally likely, by a draw
    /// from `source`; `None` for a symbol that the table does not hold.
    pub fn convert(&self, symbol: char, source: &mut RandomSource) -> (chosen: Option<char>)
        requires
            self.wf(),
        ensures
            exists|draw: int|
                draw_fits(self@, symbol, draw) && chosen == #[trigger] substitute_of(
                    self@,
                    symbol,
                    draw,
                ),
    {
        let draw = self.draw(symbol, source);
        self.substitute(symbol, draw)
    }
}

/// The glyphs that are easily mistaken for one another, each with the
/// symbols that may stand in for it: the letter l, the digit one and the
/// capital I; the capital O and the digit zero; the space and its
/// full-width form.
pub open spec fn confusable_glyphs() -> Map<char, Seq<char>> {
    Map::<char, Seq<char>>::empty()
        .insert('l', seq!['l', 'I', '|'])
        .insert('1', seq!['l', '1', 'I'])
        .insert('I', seq!['l', 'I', '|'])
        .insert('O', seq!['O', '0'])
        .insert('0', seq!['O', '0'])
        .insert(' ', seq![' ', '\u{3000}'])
}

/// Builds the table of confusable glyphs.
pub fn ambiguity_table() -> (table: AmbiguityTable)
    ensures
        table@ == confusable_glyphs(),
        table.wf(),
{
    let mut table = AmbiguityTable::new();
    table.insert('l', vec!['l', 'I', '|']);
    table.insert('1', vec!['l', '1', 'I']);
    table.insert('I', vec!['l', 'I', '|']);
    table.insert('O', vec!['O', '0']);
    table.insert('0', vec!['O', '0']);
    table.insert(' ', vec![' ', '\u{3000}']);
    table
}

} // verus!
