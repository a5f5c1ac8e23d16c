//! Lexicographic order on byte strings, sorting and binary search by it.

use vstd::prelude::*;
use crate::bytes;

verus! {

broadcast use vstd::seq_lib::group_to_multiset_ensures;

/// Whether `left` and `right` agree below `at` and part ways there, `left` being the smaller.
pub open spec fn splits_at(left: Seq<u8>, right: Seq<u8>, at: int) -> bool {
    &&& 0 <= at <= left.len()
    &&& at < right.len()
    &&& forall|k: int| 0 <= k < at ==> left[k] == right[k]
    &&& at == left.len() || left[at] < right[at]
}

/// Strict lexicographic order: a proper prefix is smaller, else the first difference decides.
pub open spec fn lex_less(left: Seq<u8>, right: Seq<u8>) -> bool {
    exists|at: int| splits_at(left, right, at)
}

/// No string is smaller than itself, and the order is transitive.
pub proof fn lemma_lex_order(a: Seq<u8>, b: Seq<u8>, c: Seq<u8>)
    ensures
        !lex_less(a, a),
        lex_less(a, b) ==> !lex_less(b, a) && a != b,
        lex_less(a, b) && lex_less(b, c) ==> lex_less(a, c),
{
    if lex_less(a, b) {
        let i = choose|at: int| splits_at(a, b, at);
        if lex_less(b, a) {
            let j = choose|at: int| splits_at(b, a, at);
            assert(i != j);
            assert(false);
        }
        if lex_less(b, c) {
            let j = choose|at: int| splits_at(b, c, at);
            assert(splits_at(a, c, if i < j { i } else { j }));
        }
    }
}

/// How one string stands to another.
#[derive(Clone, Copy, Debug, PartialEq, Eq, Structural)]
pub enum Standing {
    Less,
    Same,
    Greater,
}

/// How `left` stands to `right` in lexicographic order.
pub fn standing(left: &[u8], right: &[u8]) -> (r: Standing)
    ensures
        match r {
            Standing::Less => lex_less(left@, right@),
            Standing::Same => left@ == right@,
            Standing::Greater => lex_less(right@, left@),
        },
{
    let mut i: usize = 0;
    while i < left.len() && i < right.len()
        invariant
            i <= left@.len(),
            i <= right@.len(),
            forall|k: int| 0 <= k < i ==> left@[k] == right@[k],
        decreases left@.len() - i,
    {
        if left[i] < right[i] {
            assert(splits_at(left@, right@, i as int));
            return Standing::Less;
        }
        if left[i] > right[i] {
            assert(splits_at(right@, left@, i as int));
            return Standing::Greater;
        }
        i += 1;
    }
    if left.len() < right.len() {
        assert(splits_at(left@, right@, i as int));
        return Standing::Less;
    }
    if left.len() > right.len() {
        assert(splits_at(right@, left@, i as int));
        return Standing::Greater;
    }
    assert(left@ =~= right@);
    Standing::Same
}

/// Whether a list ascends strictly, so that no string occurs twice.
pub open spec fn ascends(list: Seq<Seq<u8>>) -> bool {
    forall|i: int, j: int| 0 <= i < j < list.len()
        ==> lex_less(#[trigger] list[i], #[trigger] list[j])
}

/// A strictly ascending list is determined by what it holds.
pub proof fn lemma_ascending_is_canonical(a: Seq<Seq<u8>>, b: Seq<Seq<u8>>)
    requires
        ascends(a),
        ascends(b),
        a.to_multiset() == b.to_multiset(),
    ensures
        a == b,
    decreases a.len(),
{
    assert(a.len() == b.len()) by {
        a.to_multiset_ensures();
        b.to_multiset_ensures();
    }
    if a.len() > 0 {
        let x = a.last();
        let y = b.last();
        a.to_multiset_ensures();
        b.to_multiset_ensures();
        assert(a.contains(x) && b.contains(y));
        assert(b.to_multiset().count(x) > 0);
        assert(a.to_multiset().count(y) > 0);
        assert(b.contains(x) && a.contains(y));
        let i = b.index_of(x);
        let j = a.index_of(y);
        assert(b[i] == x && a[j] == y);
        if x != y {
            assert(i < b.len() - 1 && j < a.len() - 1);
            assert(lex_less(b[i], b[b.len() - 1]));
            assert(lex_less(a[j], a[a.len() - 1]));
            lemma_lex_order(x, y, x);
            assert(false);
        }
        assert(a =~= a.drop_last().push(x));
        assert(b =~= b.drop_last().push(x));
        a.drop_last().to_multiset_ensures();
        b.drop_last().to_multiset_ensures();
        assert(a.drop_last().to_multiset() =~= a.to_multiset().remove(x)) by {
            assert(a.drop_last().push(x).to_multiset() =~= a.drop_last().to_multiset().insert(x));
        }
        assert(b.drop_last().to_multiset() =~= b.to_multiset().remove(x)) by {
            assert(b.drop_last().push(x).to_multiset() =~= b.drop_last().to_multiset().insert(x));
        }
        lemma_ascending_is_canonical(a.drop_last(), b.drop_last());
    } else {
        assert(a =~= b);
    }
}

/// Where `item` belongs in an ascending list: `Ok` with its index where the list holds it, else
/// `Err` with the number of smaller strings.
pub fn find(list: &Vec<Vec<u8>>, item: &[u8]) -> (r: Result<usize, usize>)
    requires
        ascends(bytes::strings(list@)),
    ensures
        match r {
            Ok(at) => at < list@.len() && list@[at as int]@ == item@,
            Err(at) => {
                &&& at <= list@.len()
                &&& !bytes::strings(list@).contains(item@)
                &&& forall|k: int| 0 <= k < at
                    ==> lex_less(#[trigger] bytes::strings(list@)[k], item@)
                &&& forall|k: int|
                    at <= k < list@.len() ==> lex_less(item@, #[trigger] bytes::strings(list@)[k])
            },
        },
{
    let mut low: usize = 0;
    let mut high: usize = list.len();
    while low < high
        invariant
            low <= high <= list@.len(),
            ascends(bytes::strings(list@)),
            forall|k: int| 0 <= k < low ==> lex_less(#[trigger] bytes::strings(list@)[k], item@),
            forall|k: int| high <= k < list@.len()
                ==> lex_less(item@, #[trigger] bytes::strings(list@)[k]),
        decreases high - low,
    {
        let middle: usize = low + (high - low) / 2;
        let ghost at = bytes::strings(list@)[middle as int];
        match standing(&list[middle], item) {
            Standing::Same => {
                return Ok(middle);
            },
            Standing::Less => {
                assert forall|k: int| 0 <= k < middle + 1 implies lex_less(
                    #[trigger] bytes::strings(list@)[k],
                    item@,
                ) by {
                    if k < middle {
                        lemma_lex_order(bytes::strings(list@)[k], at, item@);
                    }
                }
                low = middle + 1;
            },
            Standing::Greater => {
                assert forall|k: int| middle <= k < list@.len() implies lex_less(
                    item@,
                    #[trigger] bytes::strings(list@)[k],
                ) by {
                    if k > middle {
                        lemma_lex_order(item@, at, bytes::strings(list@)[k]);
                    }
                }
                high = middle;
            },
        }
    }
    assert(!bytes::strings(list@).contains(item@)) by {
        if bytes::strings(list@).contains(item@) {
            let k = bytes::strings(list@).index_of(item@);
            lemma_lex_order(item@, item@, item@);
        }
    }
    Err(low)
}

/// The strings of `list` in ascending order; `None` where one occurs twice.
pub fn sort_distinct(list: Vec<Vec<u8>>) -> (r: Option<Vec<Vec<u8>>>)
    ensures
        r is Some <==> bytes::strings(list@).no_duplicates(),
        r matches Some(out) ==> {
            &&& ascends(bytes::strings(out@))
            &&& bytes::strings(out@).to_multiset() == bytes::strings(list@).to_multiset()
        },
{
    let mut rest = list;
    let mut out: Vec<Vec<u8>> = Vec::new();
    let ghost all = bytes::strings(rest@);
    assert(bytes::strings(out@) =~= Seq::<Seq<u8>>::empty());
    assert(all + bytes::strings(out@) =~= all);
    while rest.len() > 0
        invariant
            ascends(bytes::strings(out@)),
            all == bytes::strings(list@),
            bytes::strings(rest@) == all.subrange(0, rest@.len() as int),
            rest@.len() <= all.len(),
            bytes::strings(out@).to_multiset()
                == all.subrange(rest@.len() as int, all.len() as int).to_multiset(),
            out@.len() == all.len() - rest@.len(),
        decreases rest@.len(),
    {
        let ghost held = rest@;
        let ghost kept = out@;
        let ghost n = rest@.len() as int;
        match rest.pop() {
            Some(item) => {
                assert(bytes::strings(held).last() == item@);
                assert(all[n - 1] == item@);
                assert(bytes::strings(rest@) =~= all.subrange(0, n - 1));
                let ghost tail = all.subrange(n, all.len() as int);
                assert(all.subrange(n - 1, all.len() as int) =~= seq![item@] + tail);
                match find(&out, &item) {
                    Ok(at) => {
                        proof {
                            assert(bytes::strings(out@)[at as int] == item@);
                            assert(bytes::strings(out@).contains(item@));
                            bytes::strings(out@).to_multiset_ensures();
                            tail.to_multiset_ensures();
                            assert(tail.to_multiset().count(item@) > 0);
                            assert(tail.contains(item@));
                            let k = tail.index_of(item@);
                            assert(all[n + k] == all[n - 1]);
                        }
                        return None;
                    },
                    Err(at) => {
                        let ghost held_item = item@;
                        out.insert(at, item);
                        proof {
                            let before = bytes::strings(kept);
                            assert(bytes::strings(out@) =~= before.insert(at as int, held_item));
                            assert forall|i: int, j: int| 0 <= i < j < bytes::strings(out@).len()
                                implies lex_less(
                                #[trigger] bytes::strings(out@)[i],
                                #[trigger] bytes::strings(out@)[j],
                            ) by {
                                let inserted = before.insert(at as int, held_item);
                                if i < at && j > at {
                                    assert(inserted[i] == before[i]);
                                    assert(inserted[j] == before[j - 1]);
                                } else if j < at {
                                    assert(inserted[i] == before[i]);
                                    assert(inserted[j] == before[j]);
                                } else if i > at {
                                    assert(inserted[i] == before[i - 1]);
                                    assert(inserted[j] == before[j - 1]);
                                } else if i == at {
                                    assert(inserted[j] == before[j - 1]);
                                } else {
                                    assert(inserted[i] == before[i]);
                                }
                            }
                            before.to_multiset_ensures();
                            vstd::seq_lib::to_multiset_insert(before, at as int, held_item);
                            vstd::seq_lib::lemma_multiset_commutative(seq![held_item], tail);
                            assert(seq![held_item].to_multiset()
                                =~= vstd::multiset::Multiset::singleton(
                                held_item,
                            )) by {
                                assert(seq![held_item] =~= Seq::<Seq<u8>>::empty().push(held_item));
                            }
                        }
                    },
                }
            },
            None => {},
        }
    }
    proof {
        assert(all.subrange(0, all.len() as int) =~= all);
        let sorted = bytes::strings(out@);
        assert(all.to_multiset() == sorted.to_multiset());
        assert(sorted.no_duplicates()) by {
            assert forall|i: int, j: int|
                0 <= i < sorted.len() && 0 <= j < sorted.len() && i != j implies sorted[i]
                != sorted[j] by {
                lemma_lex_order(sorted[i], sorted[j], sorted[i]);
                lemma_lex_order(sorted[j], sorted[i], sorted[j]);
            }
        }
        sorted.lemma_multiset_has_no_duplicates();
        all.lemma_multiset_has_no_duplicates_conv();
    }
    Some(out)
}

/// Of two texts the one comes first that has the lesser byte where they first differ, or that the
/// other one continues; nothing else decides.
pub proof fn law_order_is_that_of_a_dictionary(
    front: Seq<u8>,
    low: u8,
    high: u8,
    left: Seq<u8>,
    right: Seq<u8>,
)
    ensures
        low < high ==> lex_less(front + seq![low] + left, front + seq![high] + right),
        low < high ==> !lex_less(front + seq![high] + right, front + seq![low] + left),
        lex_less(front, front + seq![low] + left),
        !lex_less(front + seq![low] + left, front),
        !lex_less(front, front),
{
    let n = front.len() as int;
    let less = front + seq![low] + left;
    let more = front + seq![high] + right;
    assert(less[n] == low && more[n] == high);
    assert(splits_at(front, less, n));
    if low < high {
        assert(splits_at(less, more, n));
        if lex_less(more, less) {
            let at = choose|at: int| splits_at(more, less, at);
            assert(at <= n || more[n] == less[n]);
            assert(at < n ==> more[at] == less[at]);
        }
    }
    if lex_less(less, front) {
        let at = choose|at: int| splits_at(less, front, at);
        assert(less[at] == front[at]);
    }
    if lex_less(front, front) {
        let at = choose|at: int| splits_at(front, front, at);
        assert(front[at] == front[at]);
    }
}

} // verus!
