//! Facts about text as sequences of characters.

use vstd::prelude::*;

verus! {

/// `needle` occurs in `hay` as a contiguous run of characters.
pub open spec fn contains(hay: Seq<char>, needle: Seq<char>) -> bool {
    exists|i: int|
        0 <= i && i + needle.len() <= hay.len() && #[trigger] hay.subrange(
            i,
            i + needle.len(),
        ) == needle
}

/// The parts written one after another, first to last.
pub open spec fn concat_all(parts: Seq<Seq<char>>) -> Seq<char>
    decreases parts.len(),
{
    if parts.len() == 0 {
        Seq::<char>::empty()
    } else {
        concat_all(parts.drop_last()) + parts.last()
    }
}

/// The views of a list of string slices.
pub open spec fn views(parts: Seq<&str>) -> Seq<Seq<char>> {
    Seq::new(parts.len(), |i: int| parts[i]@)
}

/// Every text contains itself.
pub proof fn lemma_contains_self(s: Seq<char>)
    ensures
        contains(s, s),
{
    let i = 0int;
    assert(s.subrange(i, i + s.len()) =~= s);
}

/// What a text contains, it still contains with more text on either side.
pub proof fn lemma_contains_widen(before: Seq<char>, hay: Seq<char>, after: Seq<char>, needle: Seq<char>)
    requires
        contains(hay, needle),
    ensures
        contains(before + hay + after, needle),
{
    let i = choose|i: int|
        0 <= i && i + needle.len() <= hay.len() && #[trigger] hay.subrange(i, i + needle.len())
            == needle;
    let whole = before + hay + after;
    let j = before.len() + i;
    assert(whole.subrange(j, j + needle.len()) =~= hay.subrange(i, i + needle.len()));
}

/// The concatenation of parts contains each of them.
pub proof fn lemma_concat_all_contains(parts: Seq<Seq<char>>, k: int)
    requires
        0 <= k < parts.len(),
    ensures
        contains(concat_all(parts), parts[k]),
    decreases parts.len(),
{
    let init = parts.drop_last();
    let empty = Seq::<char>::empty();
    if k == parts.len() - 1 {
        lemma_contains_self(parts.last());
        lemma_contains_widen(concat_all(init), parts.last(), empty, parts.last());
        assert(concat_all(init) + parts.last() + empty =~= concat_all(parts));
    } else {
        lemma_concat_all_contains(init, k);
        lemma_contains_widen(empty, concat_all(init), parts.last(), parts[k]);
        assert(empty + concat_all(init) + parts.last() =~= concat_all(parts));
    }
}

/// Writes the parts one after another into a new string.
pub fn join(parts: &Vec<&str>) -> (out: String)
    ensures
        out@ == concat_all(views(parts@)),
{
    let mut out = String::new();
    let mut i: usize = 0;
    while i < parts.len()
        invariant
            i <= parts.len(),
            out@ == concat_all(views(parts@).take(i as int)),
        decreases parts.len() - i,
    {
        proof {
            let upto = views(parts@).take(i + 1);
            assert(upto.drop_last() =~= views(parts@).take(i as int));
            assert(upto.last() == parts@[i as int]@);
        }
        out.append(parts[i]);
        i += 1;
    }
    proof {
        assert(views(parts@).take(parts.len() as int) =~= views(parts@));
    }
    out
}

} // verus!
