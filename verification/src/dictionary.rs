use crate::symbol::{all_ascii_letters, ascii_letter, is_ascii_letter};
use crate::text::chars_of;
use vstd::prelude::*;

verus! {

/// The shape of a dictionary key: one to three ASCII letters.
pub open spec fn is_key(key: Seq<char>) -> bool {
    1 <= key.len() <= 3 && all_ascii_letters(key)
}

/// The output mapped to `key`, if `key` is in the table.
pub open spec fn exact_match(table: Map<Seq<char>, Seq<char>>, key: Seq<char>) -> Option<
    Seq<char>,
> {
    if table.dom().contains(key) {
        Some(table[key])
    } else {
        None
    }
}

/// Whether some key of the table starts with `prefix` (a key starts with itself).
pub open spec fn has_completion(table: Map<Seq<char>, Seq<char>>, prefix: Seq<char>) -> bool {
    exists|key: Seq<char>| #[trigger] table.dom().contains(key) && prefix.is_prefix_of(key)
}

/// A table is well formed when every key is one to three ASCII letters and
/// every output holds at least one character.
pub open spec fn well_formed_table(table: Map<Seq<char>, Seq<char>>) -> bool {
    forall|key: Seq<char>| #[trigger]
        table.dom().contains(key) ==> is_key(key) && table[key].len() > 0
}

struct Entry {
    key: Vec<char>,
    value: String,
}

/// A transliteration table from romanized keys to script output.
pub struct Dictionary {
    entries: Vec<Entry>,
}

/// The mapping held by a list of entries; a later entry replaces an earlier
/// one with the same key.
spec fn table_of(entries: Seq<Entry>) -> Map<Seq<char>, Seq<char>>
    decreases entries.len(),
{
    if entries.len() == 0 {
        Map::empty()
    } else {
        table_of(entries.drop_last()).insert(entries.last().key@, entries.last().value@)
    }
}

proof fn lemma_keys_of_table(entries: Seq<Entry>, key: Seq<char>)
    ensures
        table_of(entries).dom().contains(key) <==> exists|i: int|
            0 <= i < entries.len() && #[trigger] entries[i].key@ == key,
    decreases entries.len(),
{
    if entries.len() > 0 {
        let front = entries.drop_last();
        lemma_keys_of_table(front, key);
        if table_of(entries).dom().contains(key) {
            if entries.last().key@ != key {
                let i = choose|i: int| 0 <= i < front.len() && #[trigger] front[i].key@ == key;
                assert(entries[i].key@ == key);
            }
        } else {
            assert forall|i: int| 0 <= i < entries.len() implies #[trigger] entries[i].key@
                != key by {
                if i < front.len() {
                    assert(front[i].key@ != key);
                }
            }
        }
    }
}

fn same_chars(a: &Vec<char>, b: &Vec<char>) -> (same: bool)
    ensures
        same == (a@ == b@),
{
    if a.len() != b.len() {
        return false;
    }
    let n: usize = a.len();
    let mut i: usize = 0;
    while i < n
        invariant
            n == a@.len(),
            n == b@.len(),
            i <= n,
            a@.take(i as int) == b@.take(i as int),
        decreases n - i,
    {
        if a[i] != b[i] {
            return false;
        }
        i = i + 1;
    }
    assert(a@.take(n as int) == a@);
    assert(b@.take(n as int) == b@);
    true
}

fn begins_with(text: &Vec<char>, prefix: &Vec<char>) -> (begins: bool)
    ensures
        begins == prefix@.is_prefix_of(text@),
{
    if prefix.len() > text.len() {
        return false;
    }
    let n: usize = prefix.len();
    let mut i: usize = 0;
    while i < n
        invariant
            n == prefix@.len(),
            n <= text@.len(),
            i <= n,
            forall|j: int| 0 <= j < i ==> prefix@[j] == text@[j],
        decreases n - i,
    {
        if prefix[i] != text[i] {
            return false;
        }
        i = i + 1;
    }
    true
}

fn key_shaped(chars: &Vec<char>) -> (shaped: bool)
    ensures
        shaped == is_key(chars@),
{
    let n: usize = chars.len();
    if n < 1 || n > 3 {
        return false;
    }
    let mut i: usize = 0;
    while i < n
        invariant
            n == chars@.len(),
            i <= n,
            forall|j: int| 0 <= j < i ==> is_ascii_letter(#[trigger] chars@[j]),
        decreases n - i,
    {
        if !ascii_letter(chars[i]) {
            return false;
        }
        i = i + 1;
    }
    true
}

impl View for Dictionary {
    type V = Map<Seq<char>, Seq<char>>;

    closed spec fn view(&self) -> Map<Seq<char>, Seq<char>> {
        table_of(self.entries@)
    }
}

impl Dictionary {
    /// Every key is one to three ASCII letters, every output is non-empty.
    pub open spec fn wf(&self) -> bool {
        well_formed_table(self@)
    }

    /// A dictionary without entries.
    pub fn new() -> (dictionary: Dictionary)
        ensures
            dictionary@ == Map::<Seq<char>, Seq<char>>::empty(),
            dictionary.wf(),
    {
        Dictionary { entries: Vec::new() }
    }

    /// Maps `key` to `value`, replacing what `key` was mapped to before. An
    /// entry whose key is not one to three ASCII letters, or whose output is
    /// empty, is refused and leaves the dictionary as it was.
    pub fn insert(&mut self, key: &str, value: &str) -> (accepted: bool)
        requires
            old(self).wf(),
        ensures
            accepted == (is_key(key@) && value@.len() > 0),
            final(self)@ == if accepted {
                old(self)@.insert(key@, value@)
            } else {
                old(self)@
            },
            final(self).wf(),
    {
        let chars = chars_of(key);
        if !key_shaped(&chars) || value.is_empty() {
            return false;
        }
        let ghost before = self.entries@;
        self.entries.push(Entry { key: chars, value: value.to_owned() });
        assert(self.entries@.drop_last() == before);
        true
    }

    /// The output mapped to `key`, where `key` is given as characters.
    pub fn lookup_chars(&self, key: &Vec<char>) -> (found: Option<&String>)
        ensures
            exact_match(self@, key@) == match found {
                Some(value) => Some(value@),
                None => None,
            },
    {
        let mut i: usize = self.entries.len();
        assert(self.entries@.take(i as int) == self.entries@);
        while i > 0
            invariant
                i <= self.entries@.len(),
                table_of(self.entries@).dom().contains(key@) == table_of(
                    self.entries@.take(i as int),
                ).dom().contains(key@),
                table_of(self.entries@).dom().contains(key@) ==> table_of(self.entries@)[key@]
                    == table_of(self.entries@.take(i as int))[key@],
            decreases i,
        {
            i = i - 1;
            assert(self.entries@.take(i + 1).drop_last() == self.entries@.take(i as int));
            if same_chars(&self.entries[i].key, key) {
                return Some(&self.entries[i].value);
            }
        }
        None
    }

    /// Whether some key starts with `prefix`, where `prefix` is given as characters.
    pub fn completes_chars(&self, prefix: &Vec<char>) -> (possible: bool)
        ensures
            possible == has_completion(self@, prefix@),
    {
        let n: usize = self.entries.len();
        let mut i: usize = 0;
        while i < n
            invariant
                n == self.entries@.len(),
                i <= n,
                forall|j: int| 0 <= j < i ==> !prefix@.is_prefix_of(#[trigger] self.entries@[j].key@),
            decreases n - i,
        {
            if begins_with(&self.entries[i].key, prefix) {
                proof {
                    lemma_keys_of_table(self.entries@, self.entries@[i as int].key@);
                }
                return true;
            }
            i = i + 1;
        }
        proof {
            assert forall|key: Seq<char>| #[trigger]
                self@.dom().contains(key) implies !prefix@.is_prefix_of(key) by {
                lemma_keys_of_table(self.entries@, key);
            }
        }
        false
    }

    /// The output mapped to `key`, if the dictionary has exactly that key.
    pub fn lookup_exact<'a>(&'a self, key: &str) -> (found: Option<&'a str>)
        ensures
            exact_match(self@, key@) == match found {
                Some(value) => Some(value@),
                None => None,
            },
    {
        let chars = chars_of(key);
        match self.lookup_chars(&chars) {
            Some(value) => Some(value.as_str()),
            None => None,
        }
    }

    /// Whether any key starts with `prefix`; a key counts as starting with itself.
    pub fn has_possible_completion(&self, prefix: &str) -> (possible: bool)
        ensures
            possible == has_completion(self@, prefix@),
    {
        let chars = chars_of(prefix);
        self.completes_chars(&chars)
    }
}

} // verus!
