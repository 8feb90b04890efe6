//! The order in which a table is read: ascending by row key.

use vstd::prelude::*;
use vstd::std_specs::cmp::OrdSpec;
use crate::store::Table;
use crate::value::SqlDataType;

verus! {

/// Each key is less than every later one.
pub open spec fn ascending(keys: Seq<i32>) -> bool {
    forall|i: int, j: int| 0 <= i < j < keys.len() ==> keys[i] < keys[j]
}

/// `order` lists exactly `keys`, in ascending order.
pub open spec fn is_key_order(order: Seq<i32>, keys: Set<i32>) -> bool {
    ascending(order) && order.to_set() == keys
}

/// The keys of a finite set in ascending order.
pub open spec fn key_order(keys: Set<i32>) -> Seq<i32> {
    choose|order: Seq<i32>| is_key_order(order, keys)
}

/// Two ascending sequences of the same keys are the same sequence.
pub proof fn lemma_ascending_unique(a: Seq<i32>, b: Seq<i32>)
    requires
        ascending(a),
        ascending(b),
        a.to_set() == b.to_set(),
    ensures
        a == b,
    decreases a.len(),
{
    if a.len() == 0 {
        if b.len() > 0 {
            assert(b.contains(b[0]));
            assert(a.to_set().contains(b[0]));
        }
        assert(a =~= b);
    } else {
        assert(a.contains(a.last()));
        assert(b.to_set().contains(a.last()));
        let x = a.last();
        let y = b.last();
        assert(b.contains(y));
        assert(a.to_set().contains(y));
        assert(x == y);
        let short_a = a.drop_last();
        let short_b = b.drop_last();
        assert forall|key: i32| short_a.to_set().contains(key) == short_b.to_set().contains(
            key,
        ) by {
            if short_a.contains(key) {
                let i = choose|i: int| 0 <= i < short_a.len() && short_a[i] == key;
                assert(a[i] == key);
                assert(a.contains(key));
                assert(b.to_set().contains(key));
                let j = choose|j: int| 0 <= j < b.len() && b[j] == key;
                assert(short_b[j] == key);
            }
            if short_b.contains(key) {
                let i = choose|i: int| 0 <= i < short_b.len() && short_b[i] == key;
                assert(b[i] == key);
                assert(b.contains(key));
                assert(a.to_set().contains(key));
                let j = choose|j: int| 0 <= j < a.len() && a[j] == key;
                assert(short_a[j] == key);
            }
        }
        assert(short_a.to_set() =~= short_b.to_set());
        lemma_ascending_unique(short_a, short_b);
        assert(a =~= short_a.push(x));
        assert(b =~= short_b.push(y));
    }
}

/// A finite set of keys that is not empty has a greatest key.
proof fn lemma_greatest_key(keys: Set<i32>) -> (greatest: i32)
    requires
        keys.finite(),
        keys.len() > 0,
    ensures
        keys.contains(greatest),
        forall|key: i32| keys.contains(key) ==> key <= greatest,
    decreases keys.len(),
{
    let any = keys.choose();
    let rest = keys.remove(any);
    if rest.len() == 0 {
        assert forall|key: i32| keys.contains(key) implies key <= any by {
            if key != any {
                assert(rest.contains(key));
            }
        }
        any
    } else {
        let greatest = lemma_greatest_key(rest);
        if greatest < any {
            assert forall|key: i32| keys.contains(key) implies key <= any by {
                if key != any {
                    assert(rest.contains(key));
                }
            }
            any
        } else {
            assert forall|key: i32| keys.contains(key) implies key <= greatest by {
                if key != any {
                    assert(rest.contains(key));
                }
            }
            greatest
        }
    }
}

/// Builds the ascending order of a finite set of keys.
proof fn lemma_order_exists(keys: Set<i32>) -> (order: Seq<i32>)
    requires
        keys.finite(),
    ensures
        is_key_order(order, keys),
        order.len() == keys.len(),
    decreases keys.len(),
{
    if keys.len() == 0 {
        let order = Seq::<i32>::empty();
        assert(order.to_set() =~= keys);
        order
    } else {
        let greatest = lemma_greatest_key(keys);
        let rest = keys.remove(greatest);
        let shorter = lemma_order_exists(rest);
        let order = shorter.push(greatest);
        assert forall|i: int, j: int| 0 <= i < j < order.len() implies order[i] < order[j] by {
            assert(shorter.contains(shorter[i]));
            assert(rest.contains(shorter[i]));
            if j < shorter.len() {
                assert(shorter[i] < shorter[j]);
            }
        }
        assert forall|key: i32| order.to_set().contains(key) == keys.contains(key) by {
            if order.contains(key) {
                let i = choose|i: int| 0 <= i < order.len() && order[i] == key;
                if i < shorter.len() {
                    assert(shorter.contains(shorter[i]));
                    assert(rest.contains(key));
                }
            }
            if keys.contains(key) {
                if key == greatest {
                    assert(order[shorter.len() as int] == key);
                } else {
                    assert(rest.contains(key));
                    assert(shorter.to_set().contains(key));
                    let i = choose|i: int| 0 <= i < shorter.len() && shorter[i] == key;
                    assert(order[i] == key);
                }
            }
        }
        assert(order.to_set() =~= keys);
        order
    }
}

/// Every finite set of keys has its ascending order, which lists each key
/// once.
pub proof fn lemma_key_order(keys: Set<i32>)
    requires
        keys.finite(),
    ensures
        is_key_order(key_order(keys), keys),
        key_order(keys).len() == keys.len(),
        key_order(keys).no_duplicates(),
{
    let order = lemma_order_exists(keys);
    lemma_ascending_unique(order, key_order(keys));
    assert forall|i: int, j: int| 0 <= i < order.len() && 0 <= j < order.len() && i != j
        implies order[i] != order[j] by {
        if i < j {
            assert(order[i] < order[j]);
        } else {
            assert(order[j] < order[i]);
        }
    }
}

/// The rows of a table in ascending order of their keys.
pub fn ordered_rows(table: &Table) -> (rows: Vec<&Vec<SqlDataType>>)
    ensures
        is_key_order(key_order(table@.dom()), table@.dom()),
        rows@.len() == key_order(table@.dom()).len(),
        forall|at: int|
            0 <= at < rows@.len() ==> *(#[trigger] rows@[at]) == table@[key_order(
                table@.dom(),
            )[at]],
{
    broadcast use vstd::laws_cmp::group_laws_cmp;
    broadcast use vstd::std_specs::btree::axiom_key_obeys_cmp_spec_meaning;
    broadcast use vstd::std_specs::btree::axiom_increasing_seq_meaning;

    let mut rows: Vec<&Vec<SqlDataType>> = Vec::new();
    let values = table.values();
    let ghost keys: Seq<i32> = choose|keys: Seq<i32>|
        {
            &&& vstd::std_specs::btree::increasing_seq(keys)
            &&& keys.to_set() == table@.dom()
            &&& keys.no_duplicates()
            &&& vstd::std_specs::iter::IteratorSpec::remaining(&values) == keys.map(
                |i: int, key: i32| &table@[key],
            )
        };
    proof {
        assert forall|i: int, j: int| 0 <= i < j < keys.len() implies keys[i] < keys[j] by {
            assert(keys[i].cmp_spec(&keys[j]) is Less);
        }
        assert(is_key_order(keys, table@.dom()));
        lemma_ascending_unique(keys, key_order(table@.dom()));
    }
    for row in it: values
        invariant
            rows@.len() == it.index(),
            it.seq().len() == keys.len(),
            keys == key_order(table@.dom()),
            forall|at: int| 0 <= at < keys.len() ==> it.seq()[at] == &table@[keys[at]],
            forall|at: int| 0 <= at < rows@.len() ==> *rows@[at] == table@[keys[at]],
    {
        rows.push(row);
    }
    rows
}

} // verus!
