//! Track and disc numbers, written `N/TOTAL`.

use crate::number::{parse_u16, parsed_u16};
use vstd::prelude::*;
use vstd::string::*;

verus! {

/// Whether the first `/` of `s` stands at index `i`.
pub open spec fn is_first_slash(s: Seq<char>, i: int) -> bool {
    &&& 0 <= i < s.len()
    &&& s[i] == '/'
    &&& forall|j: int| 0 <= j < i ==> s[j] != '/'
}

/// Whether `s` holds a `/`.
pub open spec fn has_slash(s: Seq<char>) -> bool {
    exists|i: int| is_first_slash(s, i)
}

/// The index of the first `/` of `s`, where it holds one.
pub open spec fn slash_index(s: Seq<char>) -> int {
    choose|i: int| is_first_slash(s, i)
}

/// The two numbers written in `s`: what stands before its first `/` and
/// what stands after it, each read as an unsigned 16-bit literal.
pub open spec fn written_pair(s: Seq<char>) -> Option<(u16, u16)> {
    if has_slash(s) {
        let i = slash_index(s);
        match (parsed_u16(s.subrange(0, i)), parsed_u16(s.subrange(i + 1, s.len() as int))) {
            (Some(number), Some(total)) => Some((number, total)),
            _ => None,
        }
    } else {
        None
    }
}

/// The number and the total that `s` denotes: the two numbers written in
/// it, where the first is not above the second.
pub open spec fn parsed_track(s: Seq<char>) -> Option<(u16, u16)> {
    match written_pair(s) {
        Some(pair) => if pair.0 <= pair.1 {
            Some(pair)
        } else {
            None
        },
        None => None,
    }
}

/// The first `/` of a string stands in one place only.
pub proof fn lemma_first_slash_unique(s: Seq<char>, i: int, j: int)
    requires
        is_first_slash(s, i),
        is_first_slash(s, j),
    ensures
        i == j,
{
    if i < j {
        assert(s[i] != '/');
    }
    if j < i {
        assert(s[j] != '/');
    }
}

/// Finds the first `/` of `s`.
fn find_slash(s: &str) -> (r: Option<usize>)
    ensures
        match r {
            Some(i) => is_first_slash(s@, i as int) && slash_index(s@) == i,
            None => !has_slash(s@),
        },
{
    let len = s.unicode_len();
    let mut i: usize = 0;
    while i < len
        invariant
            i <= len,
            len == s@.len(),
            forall|j: int| 0 <= j < i ==> s@[j] != '/',
        decreases len - i,
    {
        if s.get_char(i) == '/' {
            proof {
                assert(is_first_slash(s@, i as int));
                lemma_first_slash_unique(s@, i as int, slash_index(s@));
            }
            return Some(i);
        }
        i += 1;
    }
    assert forall|k: int| !is_first_slash(s@, k) by {
        if 0 <= k < s@.len() {
            assert(s@[k] != '/');
        }
    }
    None
}

/// Reads the two numbers of `s`, written `N/TOTAL`, without comparing them.
pub(crate) fn read_pair(s: &str) -> (r: Option<(u16, u16)>)
    ensures
        r == written_pair(s@),
{
    match find_slash(s) {
        None => None,
        Some(i) => {
            let len = s.unicode_len();
            let left = s.substring_char(0, i);
            let right = s.substring_char(i + 1, len);
            match (parse_u16(left), parse_u16(right)) {
                (Some(number), Some(total)) => Some((number, total)),
                _ => None,
            }
        },
    }
}

/// Reads `s` as a number and a total, written `N/TOTAL`. A number above its
/// total is no track or disc number: `3/2` reads as nothing.
pub fn parse_track(s: &str) -> (r: Option<(u16, u16)>)
    ensures
        r == parsed_track(s@),
{
    match read_pair(s) {
        Some(pair) => if pair.0 <= pair.1 {
            Some(pair)
        } else {
            None
        },
        None => None,
    }
}

/// Accepts the empty string and every `N/TOTAL` with N not above TOTAL, and
/// nothing else. What is not of the form `N/TOTAL` is refused with one
/// sentence, and an N above TOTAL with another.
pub fn validate_track(s: &str) -> (r: Result<(), String>)
    ensures
        r is Ok <==> s@.len() == 0 || parsed_track(s@) is Some,
        r matches Err(message) ==> message@ == (if written_pair(s@) is Some {
            "N/TOTAL: N can't be larger than TOTAL"@
        } else {
            "the correct syntax is N/TOTAL"@
        }),
{
    if s.unicode_len() == 0 {
        return Ok(());
    }
    match read_pair(s) {
        None => Err(String::from_str("the correct syntax is N/TOTAL")),
        Some((number, total)) => {
            if number > total {
                Err(String::from_str("N/TOTAL: N can't be larger than TOTAL"))
            } else {
                Ok(())
            }
        },
    }
}

/// Reading a track or disc number never gives a number above its total.
pub proof fn lemma_parsed_track_in_order(s: Seq<char>)
    ensures
        parsed_track(s) matches Some(pair) ==> pair.0 <= pair.1,
{
}

} // verus!
