//! Lexicographic order of texts, and sorting by it.

use vstd::prelude::*;
use vstd::relations::{sorted_by, total_ordering};
use vstd::seq_lib::lemma_sorted_unique;

verus! {

/// Whether `left` is at or before `right` in dictionary order of code points.
pub open spec fn at_most(left: Seq<char>, right: Seq<char>) -> bool
    decreases left.len(),
{
    if left.len() == 0 {
        true
    } else if right.len() == 0 {
        false
    } else if left[0] == right[0] {
        at_most(left.drop_first(), right.drop_first())
    } else {
        (left[0] as int) < (right[0] as int)
    }
}

/// Dictionary order as a relation.
pub open spec fn dictionary() -> spec_fn(Seq<char>, Seq<char>) -> bool {
    |left: Seq<char>, right: Seq<char>| at_most(left, right)
}

/// The texts in dictionary order.
pub open spec fn sorted_texts(texts: Seq<Seq<char>>) -> Seq<Seq<char>> {
    texts.sort_by(dictionary())
}

proof fn lemma_reflexive(text: Seq<char>)
    ensures
        at_most(text, text),
    decreases text.len(),
{
    if text.len() > 0 {
        lemma_reflexive(text.drop_first());
    }
}

proof fn lemma_antisymmetric(left: Seq<char>, right: Seq<char>)
    requires
        at_most(left, right),
        at_most(right, left),
    ensures
        left == right,
    decreases left.len(),
{
    if left.len() == 0 || right.len() == 0 {
        assert(left =~= right);
    } else {
        assert(left[0] == right[0]);
        lemma_antisymmetric(left.drop_first(), right.drop_first());
        assert(left =~= seq![left[0]] + left.drop_first());
        assert(right =~= seq![right[0]] + right.drop_first());
    }
}

proof fn lemma_transitive(left: Seq<char>, middle: Seq<char>, right: Seq<char>)
    requires
        at_most(left, middle),
        at_most(middle, right),
    ensures
        at_most(left, right),
    decreases left.len(),
{
    if left.len() > 0 && left[0] == middle[0] && middle[0] == right[0] {
        lemma_transitive(left.drop_first(), middle.drop_first(), right.drop_first());
    }
}

proof fn lemma_connected(left: Seq<char>, right: Seq<char>)
    ensures
        at_most(left, right) || at_most(right, left),
    decreases left.len(),
{
    if left.len() > 0 && right.len() > 0 {
        if left[0] == right[0] {
            lemma_connected(left.drop_first(), right.drop_first());
        } else {
            assert((left[0] as int) < (right[0] as int) || (right[0] as int) < (left[0] as int));
        }
    }
}

/// Dictionary order is a total order.
pub proof fn lemma_dictionary()
    ensures
        total_ordering(dictionary()),
{
    let order = dictionary();
    assert forall|x: Seq<char>| #[trigger] order(x, x) by {
        lemma_reflexive(x);
    }
    assert forall|x: Seq<char>, y: Seq<char>| #[trigger] order(x, y) && #[trigger] order(
        y,
        x,
    ) implies x == y by {
        lemma_antisymmetric(x, y);
    }
    assert forall|x: Seq<char>, y: Seq<char>, z: Seq<char>| #[trigger] order(x, y)
        && #[trigger] order(y, z) implies order(x, z) by {
        lemma_transitive(x, y, z);
    }
    assert forall|x: Seq<char>, y: Seq<char>| #[trigger] order(x, y) || #[trigger] order(y, x) by {
        lemma_connected(x, y);
    }
}

/// Whether `left` is at or before `right` in dictionary order.
pub fn text_at_most(left: &str, right: &str) -> (r: bool)
    ensures
        r == at_most(left@, right@),
{
    let left_len: usize = left.unicode_len();
    let right_len: usize = right.unicode_len();
    let mut at: usize = 0;
    assert(left@.skip(0) =~= left@);
    assert(right@.skip(0) =~= right@);
    while at < left_len && at < right_len
        invariant
            at <= left_len,
            at <= right_len,
            left_len == left@.len(),
            right_len == right@.len(),
            at_most(left@, right@) == at_most(left@.skip(at as int), right@.skip(at as int)),
        decreases left_len - at,
    {
        let l: char = left.get_char(at);
        let r: char = right.get_char(at);
        assert(left@.skip(at as int).drop_first() =~= left@.skip(at as int + 1));
        assert(right@.skip(at as int).drop_first() =~= right@.skip(at as int + 1));
        if l != r {
            return (l as u32) < (r as u32);
        }
        at = at + 1;
    }
    at == left_len
}

/// Inserts `text` behind the entries at or before it.
fn insert_sorted(sorted: &mut Vec<String>, text: String)
    requires
        sorted_by(old(sorted).deep_view(), dictionary()),
    ensures
        sorted_by(final(sorted).deep_view(), dictionary()),
        final(sorted).deep_view().to_multiset() == old(sorted).deep_view().to_multiset().insert(
            text@,
        ),
{
    let mut at: usize = sorted.len();
    let ghost before = sorted.deep_view();
    while at > 0 && !text_at_most(sorted[at - 1].as_str(), text.as_str())
        invariant
            at <= sorted.len(),
            before == sorted.deep_view(),
            forall|i: int| at <= i < before.len() ==> !at_most(#[trigger] before[i], text@),
        decreases at,
    {
        at = at - 1;
    }
    sorted.insert(at, text);
    proof {
        let order = dictionary();
        let after = sorted.deep_view();
        lemma_dictionary();
        assert(after =~= before.insert(at as int, text@));
        vstd::seq_lib::to_multiset_insert(before, at as int, text@);
        assert forall|i: int, j: int| 0 <= i < j < after.len() implies #[trigger] order(
            after[i],
            after[j],
        ) by {
            let a = after[i];
            let b = after[j];
            if i < at && j < at {
                assert(order(before[i], before[j]));
            } else if i < at && j == at {
                assert(order(before[at - 1], text@));
                if i < at - 1 {
                    assert(order(before[i], before[at - 1]));
                    lemma_transitive(before[i], before[at - 1], text@);
                }
            } else if i < at {
                assert(order(before[i], before[j - 1]));
            } else if i == at {
                lemma_connected(before[j - 1], text@);
            } else {
                assert(order(before[i - 1], before[j - 1]));
            }
        }
    }
}

/// Sorts texts into dictionary order.
pub fn sort_texts(texts: Vec<String>) -> (r: Vec<String>)
    ensures
        r.deep_view() == sorted_texts(texts.deep_view()),
{
    let mut r: Vec<String> = Vec::new();
    let mut at: usize = 0;
    proof {
        assert(r.deep_view() =~= texts.deep_view().take(0));
    }
    while at < texts.len()
        invariant
            at <= texts.len(),
            sorted_by(r.deep_view(), dictionary()),
            r.deep_view().to_multiset() == texts.deep_view().take(at as int).to_multiset(),
        decreases texts.len() - at,
    {
        insert_sorted(&mut r, texts[at].clone());
        proof {
            let all = texts.deep_view();
            assert(all.take(at as int + 1) =~= all.take(at as int).push(all[at as int]));
            broadcast use vstd::seq_lib::group_to_multiset_ensures;

        }
        at = at + 1;
    }
    proof {
        let all = texts.deep_view();
        assert(all.take(texts.len() as int) =~= all);
        lemma_dictionary();
        all.lemma_sort_by_ensures(dictionary());
        lemma_sorted_unique(r.deep_view(), sorted_texts(all), dictionary());
    }
    r
}

/// Sorting forgets the order in which the texts were listed.
pub proof fn law_sorting_is_order_free(left: Seq<Seq<char>>, right: Seq<Seq<char>>)
    requires
        left.to_multiset() == right.to_multiset(),
    ensures
        sorted_texts(left) == sorted_texts(right),
{
    lemma_dictionary();
    left.lemma_sort_by_ensures(dictionary());
    right.lemma_sort_by_ensures(dictionary());
    lemma_sorted_unique(sorted_texts(left), sorted_texts(right), dictionary());
}

} // verus!
