//! Lists of texts in lexicographic order without repetitions.
use vstd::prelude::*;

use crate::text;

verus! {

broadcast use text::lemma_texts_push;

/// `a` comes before `b`: the first difference decides, and a proper prefix comes first.
pub open spec fn precedes(a: Seq<char>, b: Seq<char>) -> bool
    decreases a.len(),
{
    if b.len() == 0 {
        false
    } else if a.len() == 0 {
        true
    } else if a[0] != b[0] {
        a[0] < b[0]
    } else {
        precedes(a.drop_first(), b.drop_first())
    }
}

/// Every text of `list` comes before those behind it.
pub open spec fn strictly_sorted(list: Seq<Seq<char>>) -> bool {
    forall|i: int, j: int| 0 <= i < j < list.len() ==> precedes(list[i], list[j])
}

/// `list` with `item` at its place, unless it is there already.
pub open spec fn with_item(list: Seq<Seq<char>>, item: Seq<char>) -> Seq<Seq<char>>
    decreases list.len(),
{
    if list.len() == 0 {
        seq![item]
    } else if precedes(list[0], item) {
        seq![list[0]] + with_item(list.drop_first(), item)
    } else if list[0] == item {
        list
    } else {
        seq![item] + list
    }
}

/// The texts of `list` in order, each of them once.
pub open spec fn sorted_unique(list: Seq<Seq<char>>) -> Seq<Seq<char>>
    decreases list.len(),
{
    if list.len() == 0 {
        seq![]
    } else {
        with_item(sorted_unique(list.drop_last()), list.last())
    }
}

/// Whether `a` comes before `b`.
pub fn comes_before(a: &str, b: &str) -> (yes: bool)
    ensures
        yes == precedes(a@, b@),
{
    let left = text::chars_of(a);
    let right = text::chars_of(b);
    let mut i: usize = 0;
    assert(a@.skip(0) =~= a@);
    assert(b@.skip(0) =~= b@);
    while i < left.len() && i < right.len()
        invariant
            left@ == a@,
            right@ == b@,
            i <= left@.len(),
            i <= right@.len(),
            precedes(a@, b@) == precedes(a@.skip(i as int), b@.skip(i as int)),
        decreases left@.len() - i,
    {
        if left[i] != right[i] {
            return left[i] < right[i];
        }
        assert(a@.skip(i as int).drop_first() =~= a@.skip(i + 1));
        assert(b@.skip(i as int).drop_first() =~= b@.skip(i + 1));
        i += 1;
    }
    i < right.len()
}

/// Puts `item` at its place in an ordered list, unless it is there already.
pub fn insert_sorted(list: &mut Vec<String>, item: String)
    ensures
        text::texts(final(list)@) == with_item(text::texts(old(list)@), item@),
{
    let ghost all = text::texts(list@);
    let mut i: usize = 0;
    assert(all.skip(0) =~= all);
    assert(all.take(0) + with_item(all.skip(0), item@) =~= with_item(all, item@));
    while i < list.len() && comes_before(list[i].as_str(), item.as_str())
        invariant
            all == text::texts(list@),
            all == text::texts(old(list)@),
            i <= list@.len(),
            with_item(all, item@) == all.take(i as int) + with_item(all.skip(i as int), item@),
        decreases list@.len() - i,
    {
        proof {
            let rest = all.skip(i as int);
            assert(rest[0] == list@[i as int]@);
            assert(rest.drop_first() =~= all.skip(i + 1));
            assert(all.take(i as int) + (seq![rest[0]] + with_item(all.skip(i + 1), item@))
                =~= all.take(i + 1) + with_item(all.skip(i + 1), item@));
        }
        i += 1;
    }
    let ghost rest = all.skip(i as int);
    let ghost item_text = item@;
    if i < list.len() && text::same_text(list[i].as_str(), item.as_str()) {
        assert(rest[0] == list@[i as int]@);
        assert(all.take(i as int) + rest =~= all);
    } else {
        proof {
            if i < list@.len() {
                assert(rest[0] == list@[i as int]@);
                assert(with_item(rest, item@) == seq![item@] + rest);
            } else {
                assert(with_item(rest, item@) =~= seq![item@] + rest);
            }
        }
        list.insert(i, item);
        assert(text::texts(list@) =~= all.take(i as int) + (seq![item_text] + rest));
    }
}

/// The given texts in order, each of them once.
pub fn sort_unique(items: Vec<String>) -> (sorted: Vec<String>)
    ensures
        text::texts(sorted@) == sorted_unique(text::texts(items@)),
{
    let mut sorted: Vec<String> = Vec::new();
    let ghost all = text::texts(items@);
    let mut i: usize = 0;
    assert(text::texts(sorted@) =~= sorted_unique(all.take(0)));
    while i < items.len()
        invariant
            all == text::texts(items@),
            i <= items@.len(),
            text::texts(sorted@) == sorted_unique(all.take(i as int)),
        decreases items@.len() - i,
    {
        let item = items[i].clone();
        insert_sorted(&mut sorted, item);
        assert(all.take(i + 1).drop_last() =~= all.take(i as int));
        assert(all.take(i + 1).last() == items@[i as int]@);
        i += 1;
    }
    assert(all.take(i as int) =~= all);
    sorted
}

// ---------------------------------------------------------------------------
// Laws of the order
// ---------------------------------------------------------------------------

/// The order is transitive.
proof fn lemma_precedes_transitive(a: Seq<char>, b: Seq<char>, c: Seq<char>)
    requires
        precedes(a, b),
        precedes(b, c),
    ensures
        precedes(a, c),
    decreases a.len(),
{
    if a.len() > 0 && a[0] == b[0] && b[0] == c[0] {
        lemma_precedes_transitive(a.drop_first(), b.drop_first(), c.drop_first());
    }
}

/// Of two different texts, one comes first.
proof fn lemma_precedes_total(a: Seq<char>, b: Seq<char>)
    ensures
        a == b || precedes(a, b) || precedes(b, a),
    decreases a.len(),
{
    if a.len() > 0 && b.len() > 0 && a[0] == b[0] {
        lemma_precedes_total(a.drop_first(), b.drop_first());
        if a.drop_first() == b.drop_first() {
            assert(a =~= seq![a[0]] + a.drop_first());
            assert(b =~= seq![b[0]] + b.drop_first());
        }
    } else if a.len() == 0 && b.len() == 0 {
        assert(a =~= b);
    }
}

/// An item at its place keeps the order and the other texts.
proof fn lemma_with_item(list: Seq<Seq<char>>, item: Seq<char>)
    requires
        strictly_sorted(list),
    ensures
        strictly_sorted(with_item(list, item)),
        forall|t: Seq<char>|
            #[trigger] with_item(list, item).contains(t) <==> list.contains(t) || t == item,
    decreases list.len(),
{
    let all = with_item(list, item);
    if list.len() == 0 {
        assert(all[0] == item);
    } else if precedes(list[0], item) {
        let rest = list.drop_first();
        assert forall|i: int, j: int| 0 <= i < j < rest.len() implies precedes(
            rest[i],
            rest[j],
        ) by {
            assert(precedes(list[i + 1], list[j + 1]));
        }
        lemma_with_item(rest, item);
        let tail = with_item(rest, item);
        assert forall|t: Seq<char>| #[trigger] all.contains(t) <==> list.contains(t) || t
            == item by {
            if all.contains(t) {
                let i = choose|i: int| 0 <= i < all.len() && all[i] == t;
                if i == 0 {
                    assert(list[0] == t);
                } else {
                    assert(tail[i - 1] == t);
                    assert(tail.contains(t));
                    if rest.contains(t) {
                        let j = choose|j: int| 0 <= j < rest.len() && rest[j] == t;
                        assert(list[j + 1] == t);
                    }
                }
            }
            if list.contains(t) {
                let i = choose|i: int| 0 <= i < list.len() && list[i] == t;
                if i == 0 {
                    assert(all[0] == t);
                } else {
                    assert(rest[i - 1] == t);
                    assert(tail.contains(t));
                }
            }
            if tail.contains(t) {
                let i = choose|i: int| 0 <= i < tail.len() && tail[i] == t;
                assert(all[i + 1] == t);
            }
            if t == item {
                assert(tail.contains(t));
            }
        }
        assert forall|i: int, j: int| 0 <= i < j < all.len() implies precedes(all[i], all[j]) by {
            if i > 0 {
                assert(precedes(tail[i - 1], tail[j - 1]));
            } else {
                let t = tail[j - 1];
                assert(tail.contains(t));
                if rest.contains(t) {
                    let k = choose|k: int| 0 <= k < rest.len() && rest[k] == t;
                    assert(precedes(list[0], list[k + 1]));
                }
            }
        }
    } else if list[0] == item {
        assert(list.contains(item));
    } else {
        lemma_precedes_total(list[0], item);
        assert forall|t: Seq<char>| #[trigger] all.contains(t) <==> list.contains(t) || t
            == item by {
            if all.contains(t) {
                let i = choose|i: int| 0 <= i < all.len() && all[i] == t;
                if i > 0 {
                    assert(list[i - 1] == t);
                }
            }
            if list.contains(t) {
                let i = choose|i: int| 0 <= i < list.len() && list[i] == t;
                assert(all[i + 1] == t);
            }
            assert(all[0] == item);
        }
        assert forall|i: int, j: int| 0 <= i < j < all.len() implies precedes(all[i], all[j]) by {
            if i > 0 {
                assert(precedes(list[i - 1], list[j - 1]));
            } else if j > 1 {
                assert(precedes(list[0], list[j - 1]));
                lemma_precedes_transitive(item, list[0], list[j - 1]);
            }
        }
    }
}

/// A text that enters an ordered list takes its place: every text still comes before those behind
/// it, and the list holds what it held and the new text, once.
pub proof fn items_take_their_place(list: Seq<Seq<char>>, item: Seq<char>)
    requires
        forall|i: int, j: int| 0 <= i < j < list.len() ==> precedes(list[i], list[j]),
    ensures
        ({
            let after = with_item(list, item);
            &&& forall|i: int, j: int|
                0 <= i < j < after.len() ==> precedes(after[i], after[j])
            &&& forall|t: Seq<char>| #[trigger] after.contains(t) <==> list.contains(t) || t == item
        }),
{
    lemma_with_item(list, item);
}

/// Sorting without repetitions gives an ordered list of exactly the given texts.
pub proof fn sorted_unique_orders_and_keeps(list: Seq<Seq<char>>)
    ensures
        strictly_sorted(sorted_unique(list)),
        forall|t: Seq<char>| #[trigger] sorted_unique(list).contains(t) <==> list.contains(t),
    decreases list.len(),
{
    if list.len() > 0 {
        let front = list.drop_last();
        sorted_unique_orders_and_keeps(front);
        lemma_with_item(sorted_unique(front), list.last());
        assert forall|t: Seq<char>| #[trigger] sorted_unique(list).contains(t) <==> list.contains(
            t,
        ) by {
            if list.contains(t) {
                let i = choose|i: int| 0 <= i < list.len() && list[i] == t;
                if i < list.len() - 1 {
                    assert(front[i] == t);
                    assert(front.contains(t));
                }
            }
            if front.contains(t) {
                let i = choose|i: int| 0 <= i < front.len() && front[i] == t;
                assert(list[i] == t);
            }
            assert(list[list.len() - 1] == list.last());
        }
    }
}

} // verus!
