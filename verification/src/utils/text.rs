//! Small questions about strings.
use vstd::prelude::*;
use vstd::string::*;

verus! {

/// Where a character first stands in a text; the length of the text if it
/// stands nowhere.
pub open spec fn position_of(text: Seq<char>, c: char) -> int
    decreases text.len(),
{
    if text.len() == 0 {
        0
    } else if text[0] == c {
        0
    } else {
        1 + position_of(text.drop_first(), c)
    }
}

/// The position of a character is the first index that holds it.
pub proof fn lemma_position_of(text: Seq<char>, c: char, i: int)
    requires
        0 <= i <= text.len(),
        forall|j: int| 0 <= j < i ==> text[j] != c,
        i < text.len() ==> text[i] == c,
    ensures
        position_of(text, c) == i,
    decreases i,
{
    if i > 0 {
        lemma_position_of(text.drop_first(), c, i - 1);
    }
}

/// Whether two strings hold the same characters.
pub fn str_eq(a: &str, b: &str) -> (same: bool)
    ensures
        same == (a@ == b@),
{
    let n = a.unicode_len();
    if n != b.unicode_len() {
        return false;
    }
    let mut i: usize = 0;
    while i < n
        invariant
            n == a@.len(),
            n == b@.len(),
            i <= n,
            forall|j: int| 0 <= j < i ==> a@[j] == b@[j],
        decreases n - i,
    {
        if a.get_char(i) != b.get_char(i) {
            return false;
        }
        i += 1;
    }
    assert(a@ =~= b@);
    true
}

/// Finds where a character first stands in a string.
pub fn find_char(text: &str, c: char) -> (r: Option<usize>)
    ensures
        match r {
            Some(i) => i < text@.len() && position_of(text@, c) == i,
            None => position_of(text@, c) == text@.len(),
        },
{
    let n = text.unicode_len();
    let mut i: usize = 0;
    while i < n
        invariant
            n == text@.len(),
            i <= n,
            forall|j: int| 0 <= j < i ==> text@[j] != c,
        decreases n - i,
    {
        if text.get_char(i) == c {
            proof {
                lemma_position_of(text@, c, i as int);
            }
            return Some(i);
        }
        i += 1;
    }
    proof {
        lemma_position_of(text@, c, n as int);
    }
    None
}

} // verus!
