//! Moving, borrowing and slicing strings.

use vstd::prelude::*;
use vstd::string::{StrSliceExecFns, StringExecFns};
use vstd::utf8::encode_utf8;

verus! {

/// Hands a new string to the caller.
pub fn gives_ownership() -> (r: String)
    ensures
        r@ == "yours"@,
{
    let s = "yours".to_owned();
    s
}

/// Takes ownership of `s` and hands it back.
pub fn takes_and_gives_back(s: String) -> (r: String)
    ensures
        r@ == s@,
{
    s
}

/// Takes ownership of `s` and hands it back with its length in bytes.
pub fn calculate_length(s: String) -> (r: (String, usize))
    ensures
        r.0@ == s@,
        r.1 == encode_utf8(s@).len() as usize,
{
    let l = s.as_str().len();
    (s, l)
}

/// The length of `s` in bytes, borrowing it.
pub fn calculate_length_by_reference(s: &String) -> (r: usize)
    ensures
        r == encode_utf8(s@).len() as usize,
{
    s.as_str().len()
}

/// Appends `foo!` to `s`.
pub fn change(s: &mut String)
    ensures
        final(s)@ == old(s)@ + "foo!"@,
{
    s.append("foo!");
}

/// Returns a new string rather than a reference to a local one.
pub fn dangle_not() -> (r: String)
    ensures
        r@ == "hello"@,
{
    let s = "hello".to_owned();
    s
}

/// The number of characters of `s` before its first space, or its length if
/// it has none.
pub open spec fn first_word_len(s: Seq<char>) -> int
    decreases s.len(),
{
    if s.len() == 0 {
        0
    } else if s[0] == ' ' {
        0
    } else {
        1 + first_word_len(s.drop_first())
    }
}

/// The first word of `s`: the characters before its first space.
pub open spec fn first_word(s: Seq<char>) -> Seq<char> {
    s.subrange(0, first_word_len(s))
}

proof fn lemma_first_word_len(s: Seq<char>, i: int)
    requires
        0 <= i <= s.len(),
        forall|j: int| 0 <= j < i ==> s[j] != ' ',
        i == s.len() || s[i] == ' ',
    ensures
        first_word_len(s) == i,
    decreases i,
{
    if i > 0 {
        assert forall|j: int| 0 <= j < i - 1 implies s.drop_first()[j] != ' ' by {
            assert(s.drop_first()[j] == s[j + 1]);
        }
        lemma_first_word_len(s.drop_first(), i - 1);
    }
}

/// The first word of `s`, found in the string's characters.
fn first_word_of(s: &str) -> (r: &str)
    ensures
        r@ == first_word(s@),
{
    let n = s.unicode_len();
    let mut i: usize = 0;
    while i < n
        invariant
            n == s@.len(),
            i <= n,
            forall|j: int| 0 <= j < i ==> s@[j] != ' ',
        decreases n - i,
    {
        if s.get_char(i) == ' ' {
            proof {
                lemma_first_word_len(s@, i as int);
            }
            return s.substring_char(0, i);
        }
        i = i + 1;
    }
    proof {
        lemma_first_word_len(s@, i as int);
    }
    s.substring_char(0, n)
}

/// The first word of the string `s`: what comes before its first space, or
/// all of it.
#[allow(non_snake_case)]
pub fn first_word_of_String(s: &String) -> (r: &str)
    ensures
        r@ == first_word(s@),
{
    first_word_of(s.as_str())
}

/// The first word of the string slice `s`: what comes before its first
/// space, or all of it.
pub fn first_word_of_str_slice(s: &str) -> (r: &str)
    ensures
        r@ == first_word(s@),
{
    first_word_of(s)
}

} // verus!
