//! Where a key first stands in a sequence of keys.

use vstd::prelude::*;

verus! {

/// A key: the characters of a string.
pub type Key = Seq<char>;

/// The first place at or after `start` at which `key` stands in `keys`, or
/// the length of `keys` where it stands at none.
pub open spec fn position_from(keys: Seq<Key>, key: Key, start: int) -> int
    decreases keys.len() - start,
{
    if start < 0 || start >= keys.len() {
        keys.len() as int
    } else if keys[start] == key {
        start
    } else {
        position_from(keys, key, start + 1)
    }
}

/// The first place at which `key` stands in `keys`, or the length of `keys`
/// where it stands at none.
pub open spec fn position(keys: Seq<Key>, key: Key) -> int {
    position_from(keys, key, 0)
}

/// Whether `key` stands somewhere in `keys`.
pub open spec fn present(keys: Seq<Key>, key: Key) -> bool {
    position(keys, key) < keys.len()
}

/// No key stands at two places.
pub open spec fn distinct(keys: Seq<Key>) -> bool {
    forall|i: int, j: int| 0 <= i < j < keys.len() ==> keys[i] != keys[j]
}

proof fn lemma_position_from(keys: Seq<Key>, key: Key, start: int)
    requires
        0 <= start <= keys.len(),
    ensures
        start <= position_from(keys, key, start) <= keys.len(),
        position_from(keys, key, start) < keys.len() ==> keys[position_from(keys, key, start)]
            == key,
        forall|j: int| start <= j < position_from(keys, key, start) ==> keys[j] != key,
    decreases keys.len() - start,
{
    if start < keys.len() && keys[start] != key {
        lemma_position_from(keys, key, start + 1);
    }
}

/// What `position` returns: a place that holds the key and that no earlier
/// place shares, or the length where no place holds it.
pub proof fn lemma_position(keys: Seq<Key>, key: Key)
    ensures
        0 <= position(keys, key) <= keys.len(),
        present(keys, key) ==> keys[position(keys, key)] == key,
        forall|j: int| 0 <= j < position(keys, key) ==> keys[j] != key,
        present(keys, key) <==> keys.contains(key),
{
    lemma_position_from(keys, key, 0);
    if keys.contains(key) {
        let j = choose|j: int| 0 <= j < keys.len() && keys[j] == key;
        assert(keys[j] == key);
    }
    if present(keys, key) {
        assert(keys[position(keys, key)] == key);
    }
}

/// A place that holds the key, and before which none does, is its position.
pub proof fn lemma_position_is(keys: Seq<Key>, key: Key, i: int)
    requires
        0 <= i < keys.len(),
        keys[i] == key,
        forall|j: int| 0 <= j < i ==> keys[j] != key,
    ensures
        position(keys, key) == i,
{
    lemma_position(keys, key);
}

/// Where no place holds the key, its position is the length.
pub proof fn lemma_position_absent(keys: Seq<Key>, key: Key)
    requires
        forall|j: int| 0 <= j < keys.len() ==> keys[j] != key,
    ensures
        position(keys, key) == keys.len(),
        !present(keys, key),
{
    lemma_position(keys, key);
}

/// Where a key stands once another key is appended.
pub proof fn lemma_position_push(keys: Seq<Key>, last: Key, key: Key)
    ensures
        position(keys.push(last), key) == if present(keys, key) {
            position(keys, key)
        } else if key == last {
            keys.len() as int
        } else {
            keys.len() as int + 1
        },
{
    lemma_position(keys, key);
    let after = keys.push(last);
    let p = position(keys, key);
    if p < keys.len() {
        assert(after[p] == keys[p]);
        assert forall|j: int| 0 <= j < p implies after[j] != key by {
            assert(after[j] == keys[j]);
        }
        lemma_position_is(after, key, p);
    } else if key == last {
        assert forall|j: int| 0 <= j < keys.len() implies after[j] != key by {
            assert(after[j] == keys[j]);
        }
        lemma_position_is(after, key, keys.len() as int);
    } else {
        assert forall|j: int| 0 <= j < after.len() implies after[j] != key by {
            if j < keys.len() {
                assert(after[j] == keys[j]);
            }
        }
        lemma_position_absent(after, key);
    }
}

/// Where a key stands once the entry of another key is taken out.
pub proof fn lemma_position_remove(keys: Seq<Key>, i: int, key: Key)
    requires
        0 <= i < keys.len(),
        keys[i] != key,
    ensures
        position(keys.remove(i), key) == if position(keys, key) < i {
            position(keys, key)
        } else {
            position(keys, key) - 1
        },
        present(keys.remove(i), key) == present(keys, key),
{
    lemma_position(keys, key);
    let after = keys.remove(i);
    let p = position(keys, key);
    if p < keys.len() {
        let q = if p < i { p } else { p - 1 };
        assert(after[q] == keys[p]);
        assert forall|j: int| 0 <= j < q implies after[j] != key by {
            if j < i {
                assert(after[j] == keys[j]);
            } else {
                assert(after[j] == keys[j + 1]);
            }
        }
        lemma_position_is(after, key, q);
    } else {
        assert forall|j: int| 0 <= j < after.len() implies after[j] != key by {
            if j < i {
                assert(after[j] == keys[j]);
            } else {
                assert(after[j] == keys[j + 1]);
            }
        }
        lemma_position_absent(after, key);
    }
}

/// Appending a key that stands nowhere keeps the keys distinct.
pub proof fn lemma_distinct_push(keys: Seq<Key>, last: Key)
    requires
        distinct(keys),
        !present(keys, last),
    ensures
        distinct(keys.push(last)),
{
    lemma_position(keys, last);
    let after = keys.push(last);
    assert forall|i: int, j: int| 0 <= i < j < after.len() implies after[i] != after[j] by {
        assert(after[i] == keys[i]);
        if j < keys.len() {
            assert(after[j] == keys[j]);
        }
    }
}

} // verus!
