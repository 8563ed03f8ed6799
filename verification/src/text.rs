use vstd::prelude::*;

verus! {

/// Assumed of `String::push`, as the standard library documents it: the call
/// appends the character `c` to the end of the string and changes nothing
/// else of it.
pub assume_specification[ String::push ](s: &mut String, c: char)
    ensures
        final(s)@ == old(s)@.push(c),
;

/// The characters of `text`, in order.
pub fn chars_of(text: &str) -> (chars: Vec<char>)
    ensures
        chars@ == text@,
{
    let mut chars: Vec<char> = Vec::new();
    for c in it: text.chars()
        invariant
            it.seq() == text@,
            chars@ == text@.take(it.index()),
    {
        chars.push(c);
    }
    chars
}

/// The string whose characters are `chars`, in order.
pub fn string_of(chars: &Vec<char>) -> (text: String)
    ensures
        text@ == chars@,
{
    let mut text = String::new();
    let n: usize = chars.len();
    let mut i: usize = 0;
    while i < n
        invariant
            n == chars@.len(),
            i <= n,
            text@ == chars@.take(i as int),
        decreases n - i,
    {
        text.push(chars[i]);
        i = i + 1;
    }
    text
}

/// The string that holds the single character `c`.
pub fn string_of_char(c: char) -> (text: String)
    ensures
        text@ == seq![c],
{
    let mut text = String::new();
    text.push(c);
    text
}

/// The texts held by a list of strings, in order.
pub open spec fn texts(strings: Seq<String>) -> Seq<Seq<char>> {
    strings.map_values(|s: String| s@)
}

} // verus!
