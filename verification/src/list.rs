//! Lists of strings, written with commas between the items.

use vstd::prelude::*;
use vstd::string::*;

verus! {

/// The items of `s`: the stretches between its commas, in their order. A
/// string with n commas has n + 1 items, some of which may be empty.
pub open spec fn items(s: Seq<char>) -> Seq<Seq<char>>
    decreases s.len(),
{
    if s.len() == 0 {
        seq![Seq::<char>::empty()]
    } else {
        let before = items(s.drop_last());
        if s.last() == ',' {
            before.push(Seq::<char>::empty())
        } else {
            before.drop_last().push(before.last().push(s.last()))
        }
    }
}

/// There is always at least one item.
pub proof fn lemma_items_nonempty(s: Seq<char>)
    ensures
        items(s).len() >= 1,
    decreases s.len(),
{
    if s.len() > 0 {
        lemma_items_nonempty(s.drop_last());
    }
}

/// The only string whose items are one empty item is the empty string.
pub proof fn lemma_single_empty_item(s: Seq<char>)
    ensures
        (items(s).len() == 1 && items(s)[0].len() == 0) <==> s.len() == 0,
    decreases s.len(),
{
    if s.len() > 0 {
        lemma_items_nonempty(s.drop_last());
        lemma_single_empty_item(s.drop_last());
    }
}

/// Splits `s` at its commas.
pub fn split_items(s: &str) -> (r: Vec<String>)
    ensures
        r.deep_view() == items(s@),
{
    let len = s.unicode_len();
    let mut done: Vec<String> = Vec::new();
    let mut start: usize = 0;
    let mut i: usize = 0;
    assert(s@.take(0) =~= Seq::<char>::empty());
    assert(done.deep_view().push(s@.subrange(0, 0)) =~= items(s@.take(0)));
    while i < len
        invariant
            start <= i <= len,
            len == s@.len(),
            items(s@.take(i as int)) == done.deep_view().push(s@.subrange(start as int, i as int)),
        decreases len - i,
    {
        let c = s.get_char(i);
        proof {
            let now = s@.take(i + 1);
            assert(now.drop_last() =~= s@.take(i as int));
            assert(now.last() == c);
        }
        if c == ',' {
            let item = s.substring_char(start, i);
            let ghost before = done.deep_view();
            done.push(item.to_owned());
            start = i + 1;
            proof {
                assert(done.deep_view() =~= before.push(item@));
                assert(s@.subrange(start as int, i + 1) =~= Seq::<char>::empty());
            }
        } else {
            proof {
                let before = items(s@.take(i as int));
                assert(before.drop_last() =~= done.deep_view());
                assert(s@.subrange(start as int, i + 1) =~= s@.subrange(start as int, i as int).push(c));
            }
        }
        i += 1;
    }
    assert(s@.take(len as int) =~= s@);
    let item = s.substring_char(start, len);
    let ghost before = done.deep_view();
    done.push(item.to_owned());
    assert(done.deep_view() =~= before.push(s@.subrange(start as int, len as int)));
    done
}

} // verus!
