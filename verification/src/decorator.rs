//! Wrapping a line of text in a border of one repeated character.

use vstd::prelude::*;

verus! {

/// `count` copies of `ch`.
pub open spec fn repeated(ch: char, count: nat) -> Seq<char> {
    Seq::new(count, |i: int| ch)
}

/// `text` with `count` copies of `ch` before it and `count` after it.
pub open spec fn decorated(text: Seq<char>, count: nat, ch: char) -> Seq<char> {
    repeated(ch, count) + text + repeated(ch, count)
}

/// `String::push` of the standard library, which appends one character to
/// the end of the string and leaves what was there untouched. As vstd does
/// for `Vec::push`, the contract leaves aside a string that outgrows the
/// memory there is.
pub assume_specification[ String::push ](s: &mut String, ch: char)
    ensures
        final(s)@ == old(s)@.push(ch),
;

/// A string of `chars` copies of `chr`.
pub fn repeat(chars: u32, chr: char) -> (out: String)
    ensures
        out@ == repeated(chr, chars as nat),
{
    let mut out = String::new();
    let mut done: u32 = 0;
    while done < chars
        invariant
            done <= chars,
            out@ == repeated(chr, done as nat),
        decreases chars - done,
    {
        out.push(chr);
        done = done + 1;
    }
    out
}

/// Puts `num_ch` copies of `ch` on either side of `input`.
///
/// With `num_ch == 0` the result is `input` itself. In general the result
/// is `2 * num_ch` characters longer than `input`, and its first and last
/// `num_ch` characters are `ch`.
pub fn add_line_seps(input: &str, num_ch: u32, ch: char) -> (out: String)
    ensures
        out@ == decorated(input@, num_ch as nat, ch),
        num_ch == 0 ==> out@ == input@,
        out@.len() == input@.len() + 2 * num_ch,
        forall|i: int| 0 <= i < num_ch ==> out@[i] == ch,
        forall|i: int| out@.len() - num_ch <= i < out@.len() ==> out@[i] == ch,
{
    let border = repeat(num_ch, ch);
    let mut out = String::new();
    out.append(border.as_str());
    out.append(input);
    out.append(border.as_str());
    out
}

/// Decorating with a border of no characters changes nothing.
pub proof fn lemma_decorated_zero(text: Seq<char>, ch: char)
    ensures
        decorated(text, 0, ch) == text,
{
}

/// A decorated line is `2 * count` characters longer than the text, starts
/// and ends with `count` copies of the border character, and holds the text
/// unchanged between them.
pub proof fn lemma_decorated_border(text: Seq<char>, count: nat, ch: char)
    ensures
        decorated(text, count, ch).len() == text.len() + 2 * count,
        forall|i: int| 0 <= i < count ==> decorated(text, count, ch)[i] == ch,
        forall|i: int|
            text.len() + count <= i < text.len() + 2 * count ==> decorated(text, count, ch)[i]
                == ch,
        decorated(text, count, ch).subrange(count as int, (count + text.len()) as int) == text,
{
}

} // verus!
