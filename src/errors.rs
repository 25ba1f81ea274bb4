//! Using `Option` for a result that may be absent.

use vstd::prelude::*;
use vstd::string::StrSliceExecFns;

verus! {

/// The number of characters of `s` before its first line feed, or its length
/// if it has none.
pub open spec fn line_end(s: Seq<char>) -> int
    decreases s.len(),
{
    if s.len() == 0 {
        0
    } else if s[0] == '\n' {
        0
    } else {
        1 + line_end(s.drop_first())
    }
}

/// The first line of `s`, without its line ending: a line ends at a line
/// feed, and a carriage return just before that line feed belongs to the
/// ending.
pub open spec fn first_line(s: Seq<char>) -> Seq<char> {
    let k = line_end(s);
    if k < s.len() && k > 0 && s[k - 1] == '\r' {
        s.subrange(0, k - 1)
    } else {
        s.subrange(0, k)
    }
}

proof fn lemma_line_end(s: Seq<char>, i: int)
    requires
        0 <= i <= s.len(),
        forall|j: int| 0 <= j < i ==> s[j] != '\n',
        i == s.len() || s[i] == '\n',
    ensures
        line_end(s) == i,
    decreases i,
{
    if i > 0 {
        assert forall|j: int| 0 <= j < i - 1 implies s.drop_first()[j] != '\n' by {
            assert(s.drop_first()[j] == s[j + 1]);
        }
        lemma_line_end(s.drop_first(), i - 1);
    }
}

/// The last character of the first line of `text`, if that line is not
/// empty.
pub fn last_char_of_first_line(text: &str) -> (r: Option<char>)
    ensures
        first_line(text@).len() == 0 ==> r is None,
        first_line(text@).len() > 0 ==> r == Some(first_line(text@).last()),
{
    let n = text.unicode_len();
    let mut k: usize = 0;
    while k < n && text.get_char(k) != '\n'
        invariant
            n == text@.len(),
            k <= n,
            forall|j: int| 0 <= j < k ==> text@[j] != '\n',
        decreases n - k,
    {
        k = k + 1;
    }
    proof {
        lemma_line_end(text@, k as int);
    }
    let mut end = k;
    if k < n && k > 0 && text.get_char(k - 1) == '\r' {
        end = k - 1;
    }
    if end == 0 {
        None
    } else {
        Some(text.get_char(end - 1))
    }
}

} // verus!
