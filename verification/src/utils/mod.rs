//! Small helpers that the other modules share: texts, colours, ranges and sources.

use vstd::prelude::*;
use vstd::string::*;
use vstd::utf8::{encode_utf8, encode_utf8_decode_utf8};

pub mod range;
pub mod source;

verus! {

/// Two texts with the same encoding in UTF-8 are the same text.
pub proof fn lemma_encode_injective(first: Seq<char>, second: Seq<char>)
    requires
        encode_utf8(first) == encode_utf8(second),
    ensures
        first == second,
{
    encode_utf8_decode_utf8(first);
    encode_utf8_decode_utf8(second);
}

/// The characters of a text, in order.
pub fn decode(text: &str) -> (chars: Vec<char>)
    ensures
        chars@ == text@,
{
    let mut chars: Vec<char> = Vec::new();
    let iterator = text.chars();
    for c in it: iterator
        invariant
            chars@ == it.seq().take(it.index() as int),
            it.seq() == text@,
    {
        chars.push(c);
    }
    chars
}

/// Whether two texts are the same, character by character.
pub fn same_text(first: &str, second: &str) -> (same: bool)
    ensures
        same == (first@ == second@),
{
    let left = first.as_bytes();
    let right = second.as_bytes();
    if left.len() != right.len() {
        return false;
    }
    let mut i: usize = 0;
    while i < left.len()
        invariant
            i <= left.len(),
            left@.len() == right@.len(),
            left@ == first.spec_bytes(),
            right@ == second.spec_bytes(),
            forall|k: int| 0 <= k < i ==> left@[k] == right@[k],
        decreases left.len() - i,
    {
        if left[i] != right[i] {
            return false;
        }
        i = i + 1;
    }
    proof {
        assert(left@ =~= right@);
        lemma_encode_injective(first@, second@);
    }
    true
}

/// The views of the items of a sequence, in order.
pub open spec fn views<T: View>(items: Seq<T>) -> Seq<T::V> {
    Seq::new(items.len(), |i: int| items[i]@)
}

/// The characters a numeric literal is made of: ASCII digits and the dot.
pub open spec fn is_number_char(character: char) -> bool {
    ('0' <= character <= '9') || character == '.'
}

/// Whether `character` is an ASCII digit or the dot.
pub fn match_number(character: char) -> (b: bool)
    ensures
        b == is_number_char(character),
{
    (character >= '0' && character <= '9') || character == '.'
}

/// `text` between an opening escape sequence and the reset sequence.
pub open spec fn painted(open: Seq<char>, text: Seq<char>) -> Seq<char> {
    open + text + "\x1b[0m"@
}

fn paint(open: &str, text: &str) -> (s: String)
    ensures
        s@ == painted(open@, text@),
{
    let mut s = String::from_str(open);
    s.append(text);
    s.append("\x1b[0m");
    s
}

/// `text` in red.
pub fn highlight_text_with_red(text: &str) -> (s: String)
    ensures
        s@ == painted("\x1b[31m"@, text@),
{
    paint("\x1b[31m", text)
}

/// `text` in yellow.
pub fn highlight_text_with_yellow(text: &str) -> (s: String)
    ensures
        s@ == painted("\x1b[33m"@, text@),
{
    paint("\x1b[33m", text)
}

/// `text` in cyan.
pub fn highlight_text_with_cyan(text: &str) -> (s: String)
    ensures
        s@ == painted("\x1b[36m"@, text@),
{
    paint("\x1b[36m", text)
}

/// `text` in bright white.
pub fn highlight_text_with_white(text: &str) -> (s: String)
    ensures
        s@ == painted("\x1b[97m"@, text@),
{
    paint("\x1b[97m", text)
}

/// `text` in green.
pub fn highlight_text_with_green(text: &str) -> (s: String)
    ensures
        s@ == painted("\x1b[32m"@, text@),
{
    paint("\x1b[32m", text)
}

} // verus!
