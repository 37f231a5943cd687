//! Address lists used as registries: membership, removal, and the facts that keep a
//! registry free of duplicates.

use vstd::prelude::*;
use crate::address::Address;

verus! {

/// `list` with every occurrence of `key` taken out, the rest in its order.
pub open spec fn without(list: Seq<Address>, key: Address) -> Seq<Address> {
    list.filter(|e: Address| e != key)
}

/// No address is in both lists.
pub open spec fn disjoint(a: Seq<Address>, b: Seq<Address>) -> bool {
    forall|x: Address| a.contains(x) ==> !b.contains(x)
}

/// Every address of `a` is in `b`.
pub open spec fn included(a: Seq<Address>, b: Seq<Address>) -> bool {
    forall|x: Address| a.contains(x) ==> b.contains(x)
}

/// Removing `key` keeps exactly the other members.
pub proof fn lemma_without_contains(list: Seq<Address>, key: Address, x: Address)
    ensures
        without(list, key).contains(x) <==> (list.contains(x) && x != key),
    decreases list.len(),
{
    reveal(Seq::filter);
    if list.len() > 0 {
        let front = list.drop_last();
        lemma_without_contains(front, key, x);
        let kept = without(front, key);
        if list.contains(x) && x != key {
            let i = choose|i: int| 0 <= i < list.len() && list[i] == x;
            if i < list.len() - 1 {
                assert(front[i] == x);
                assert(front.contains(x));
                let j = choose|j: int| 0 <= j < kept.len() && kept[j] == x;
                assert(without(list, key)[j] == x);
            } else {
                assert(without(list, key) == kept.push(x));
                assert(without(list, key)[kept.len() as int] == x);
            }
        }
        if without(list, key).contains(x) {
            let j = choose|j: int| 0 <= j < without(list, key).len() && without(list, key)[j] == x;
            if j < kept.len() {
                assert(kept[j] == x);
                assert(kept.contains(x));
                let i = choose|i: int| 0 <= i < front.len() && front[i] == x;
                assert(list[i] == x);
            } else {
                assert(list[list.len() - 1] == x);
            }
        }
    }
}

/// Removing from a list without duplicates leaves no duplicates.
pub proof fn lemma_without_no_duplicates(list: Seq<Address>, key: Address)
    requires
        list.no_duplicates(),
    ensures
        without(list, key).no_duplicates(),
    decreases list.len(),
{
    reveal(Seq::filter);
    if list.len() > 0 {
        let front = list.drop_last();
        lemma_without_no_duplicates(front, key);
        let kept = without(front, key);
        if list.last() != key {
            lemma_without_contains(front, key, list.last());
            if front.contains(list.last()) {
                let i = choose|i: int| 0 <= i < front.len() && front[i] == list.last();
                assert(list[i] == list[list.len() - 1]);
            }
            lemma_push_no_duplicates(kept, list.last());
        }
    }
}

/// Removing an address that is not in the list changes nothing.
pub proof fn lemma_without_absent(list: Seq<Address>, key: Address)
    requires
        !list.contains(key),
    ensures
        without(list, key) == list,
    decreases list.len(),
{
    reveal(Seq::filter);
    if list.len() > 0 {
        let front = list.drop_last();
        if front.contains(key) {
            let i = choose|i: int| 0 <= i < front.len() && front[i] == key;
            assert(list[i] == key);
        }
        assert(list[list.len() - 1] != key);
        lemma_without_absent(front, key);
        assert(front.push(list.last()) =~= list);
    }
}

/// Removing an address from a list without duplicates that holds it shortens the list
/// by one.
pub proof fn lemma_without_len(list: Seq<Address>, key: Address)
    requires
        list.no_duplicates(),
        list.contains(key),
    ensures
        without(list, key).len() == list.len() - 1,
    decreases list.len(),
{
    reveal(Seq::filter);
    let front = list.drop_last();
    if list.last() == key {
        if front.contains(key) {
            let i = choose|i: int| 0 <= i < front.len() && front[i] == key;
            assert(list[i] == list[list.len() - 1]);
        }
        lemma_without_absent(front, key);
    } else {
        let i = choose|i: int| 0 <= i < list.len() && list[i] == key;
        assert(front[i] == key);
        lemma_without_len(front, key);
    }
}

/// Appending an address that is not yet in a list without duplicates leaves no
/// duplicates.
pub proof fn lemma_push_no_duplicates(list: Seq<Address>, key: Address)
    requires
        list.no_duplicates(),
        !list.contains(key),
    ensures
        list.push(key).no_duplicates(),
{
    let out = list.push(key);
    assert forall|i: int, j: int| 0 <= i < out.len() && 0 <= j < out.len() && i != j implies out[i]
        != out[j] by {
        if i < list.len() && j < list.len() {
        } else if i < list.len() {
            assert(list[i] != key);
        } else {
            assert(list[j] != key);
        }
    }
}

/// Removal after an append: the appended address stays unless it is the one removed.
pub proof fn lemma_without_push(list: Seq<Address>, x: Address, key: Address)
    ensures
        without(list.push(x), key) == if x != key {
            without(list, key).push(x)
        } else {
            without(list, key)
        },
{
    reveal(Seq::filter);
    assert(list.push(x).drop_last() =~= list);
}

/// The members of a list after an append.
pub proof fn lemma_push_contains(list: Seq<Address>, key: Address, x: Address)
    ensures
        list.push(key).contains(x) <==> (list.contains(x) || x == key),
{
    let out = list.push(key);
    if list.contains(x) {
        let i = choose|i: int| 0 <= i < list.len() && list[i] == x;
        assert(out[i] == x);
    }
    if x == key {
        assert(out[list.len() as int] == x);
    }
    if out.contains(x) {
        let i = choose|i: int| 0 <= i < out.len() && out[i] == x;
        if i < list.len() {
            assert(list[i] == x);
        }
    }
}

/// Whether `list` holds `key`.
pub fn contains(list: &Vec<Address>, key: &Address) -> (found: bool)
    ensures
        found == list@.contains(*key),
{
    let mut i: usize = 0;
    while i < list.len()
        invariant
            i <= list.len(),
            forall|j: int| 0 <= j < i ==> list@[j] != *key,
        decreases list.len() - i,
    {
        if list[i] == *key {
            return true;
        }
        i = i + 1;
    }
    false
}

/// Takes every occurrence of `key` out of `list` and keeps the rest in its order.
pub fn remove(list: &mut Vec<Address>, key: &Address)
    ensures
        final(list)@ == without(old(list)@, *key),
{
    let mut kept: Vec<Address> = Vec::new();
    let mut i: usize = 0;
    proof {
        reveal(Seq::filter);
        assert(list@.take(0) =~= Seq::<Address>::empty());
    }
    while i < list.len()
        invariant
            i <= list.len(),
            kept@ == without(list@.take(i as int), *key),
        decreases list.len() - i,
    {
        proof {
            assert(list@.take(i + 1) =~= list@.take(i as int).push(list@[i as int]));
            lemma_without_push(list@.take(i as int), list@[i as int], *key);
        }
        if list[i] != *key {
            kept.push(list[i]);
        }
        i = i + 1;
    }
    proof {
        assert(list@.take(list.len() as int) =~= list@);
    }
    *list = kept;
}

/// A copy of `list`.
pub fn copy(list: &Vec<Address>) -> (out: Vec<Address>)
    ensures
        out@ == list@,
{
    let mut out: Vec<Address> = Vec::new();
    let mut i: usize = 0;
    while i < list.len()
        invariant
            i <= list.len(),
            out@ == list@.take(i as int),
        decreases list.len() - i,
    {
        out.push(list[i]);
        proof {
            assert(list@.take(i + 1) =~= list@.take(i as int).push(list@[i as int]));
        }
        i = i + 1;
    }
    proof {
        assert(list@.take(list.len() as int) =~= list@);
    }
    out
}

} // verus!
