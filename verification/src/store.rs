use vstd::prelude::*;

use crate::bytes::bytes_dup;
use crate::bytes::bytes_eq;

verus! {

/// One record of a typed key-value store keyed by an opaque byte identifier.
/// Each entity kind (campaigns, consumed events, allow-list flags) gets its
/// own store, so keys of different kinds cannot collide.
pub struct KeyedEntry<T> {
    pub key: Vec<u8>,
    pub val: T,
}

/// A store holds at most one record per key.
pub open spec fn unique_keys<T>(s: Seq<KeyedEntry<T>>) -> bool {
    forall|i: int, j: int|
        0 <= i < j < s.len() ==> (#[trigger] s[i]).key@ != (#[trigger] s[j]).key@
}

/// Some record of the store carries this key.
pub open spec fn has_key<T>(s: Seq<KeyedEntry<T>>, k: Seq<u8>) -> bool {
    exists|i: int| 0 <= i < s.len() && (#[trigger] s[i]).key@ == k
}

/// The position of the record carrying this key.
pub open spec fn key_index<T>(s: Seq<KeyedEntry<T>>, k: Seq<u8>) -> int {
    choose|i: int| 0 <= i < s.len() && (#[trigger] s[i]).key@ == k
}

/// The value stored under this key.
pub open spec fn val_of<T>(s: Seq<KeyedEntry<T>>, k: Seq<u8>) -> T
    recommends
        has_key(s, k),
{
    s[key_index(s, k)].val
}

/// A boolean record with a default for keys that carry no record.
pub open spec fn flag_of(s: Seq<KeyedEntry<bool>>, k: Seq<u8>, dflt: bool) -> bool {
    if has_key(s, k) {
        val_of(s, k)
    } else {
        dflt
    }
}

/// In a store with unique keys, a record's position is the key's index.
pub proof fn lemma_key_index<T>(s: Seq<KeyedEntry<T>>, k: Seq<u8>, i: int)
    requires
        unique_keys(s),
        0 <= i < s.len(),
        s[i].key@ == k,
    ensures
        has_key(s, k),
        key_index(s, k) == i,
        val_of(s, k) == s[i].val,
{
    assert(has_key(s, k));
    let j = key_index(s, k);
    assert(0 <= j < s.len() && s[j].key@ == k);
    if j < i {
        assert(s[j].key@ != s[i].key@);
    }
    if i < j {
        assert(s[i].key@ != s[j].key@);
    }
}

/// Appending a record under a fresh key keeps keys unique, leaves every
/// other key's record as it was, and makes the new value visible.
pub proof fn lemma_push_key<T>(s: Seq<KeyedEntry<T>>, e: KeyedEntry<T>)
    requires
        unique_keys(s),
        !has_key(s, e.key@),
    ensures
        unique_keys(s.push(e)),
        has_key(s.push(e), e.key@),
        val_of(s.push(e), e.key@) == e.val,
        forall|k: Seq<u8>| k != e.key@ ==> has_key(s.push(e), k) == has_key(s, k),
        forall|k: Seq<u8>| has_key(s, k) ==> val_of(s.push(e), k) == val_of(s, k),
{
    let t = s.push(e);
    assert(t[s.len() as int] == e);
    assert forall|i: int, j: int|
        0 <= i < j < t.len() implies (#[trigger] t[i]).key@ != (#[trigger] t[j]).key@ by {
        if j < s.len() {
            assert(t[i] == s[i] && t[j] == s[j]);
        } else {
            assert(t[j] == e);
            assert(t[i] == s[i]);
            if s[i].key@ == e.key@ {
                assert(has_key(s, e.key@));
            }
        }
    }
    lemma_key_index(t, e.key@, s.len() as int);
    assert forall|k: Seq<u8>| k != e.key@ implies has_key(t, k) == has_key(s, k) by {
        if has_key(t, k) {
            let i = key_index(t, k);
            assert(0 <= i < t.len() && t[i].key@ == k);
            assert(i < s.len());
            assert(s[i].key@ == k);
            assert(has_key(s, k));
        }
        if has_key(s, k) {
            let i = key_index(s, k);
            assert(0 <= i < s.len() && s[i].key@ == k);
            assert(t[i].key@ == k);
            assert(has_key(t, k));
        }
    }
    assert forall|k: Seq<u8>| has_key(s, k) implies val_of(t, k) == val_of(s, k) by {
        let i = key_index(s, k);
        assert(0 <= i < s.len() && s[i].key@ == k);
        assert(t[i] == s[i]);
        lemma_key_index(t, k, i);
    }
}

/// Overwriting the record at a key's own position keeps keys unique,
/// leaves every other key's record as it was, and makes the new value
/// visible under that key.
pub proof fn lemma_set_key<T>(s: Seq<KeyedEntry<T>>, i: int, e: KeyedEntry<T>)
    requires
        unique_keys(s),
        0 <= i < s.len(),
        e.key@ == s[i].key@,
    ensures
        unique_keys(s.update(i, e)),
        forall|k: Seq<u8>| has_key(s.update(i, e), k) == has_key(s, k),
        has_key(s.update(i, e), e.key@),
        val_of(s.update(i, e), e.key@) == e.val,
        forall|k: Seq<u8>|
            k != e.key@ && has_key(s, k) ==> val_of(s.update(i, e), k) == val_of(s, k),
{
    let t = s.update(i, e);
    assert(t[i] == e);
    assert forall|a: int, b: int|
        0 <= a < b < t.len() implies (#[trigger] t[a]).key@ != (#[trigger] t[b]).key@ by {
        assert(t[a] == if a == i { e } else { s[a] });
        assert(t[b] == if b == i { e } else { s[b] });
    }
    lemma_key_index(s, e.key@, i);
    lemma_key_index(t, e.key@, i);
    assert forall|k: Seq<u8>| has_key(t, k) == has_key(s, k) by {
        if has_key(t, k) {
            let a = key_index(t, k);
            assert(0 <= a < t.len() && t[a].key@ == k);
            assert(s[a].key@ == k);
            assert(has_key(s, k));
        }
        if has_key(s, k) {
            let a = key_index(s, k);
            assert(0 <= a < s.len() && s[a].key@ == k);
            assert(t[a].key@ == k);
            assert(has_key(t, k));
        }
    }
    assert forall|k: Seq<u8>|
        k != e.key@ && has_key(s, k) implies val_of(t, k) == val_of(s, k) by {
        let a = key_index(s, k);
        assert(0 <= a < s.len() && s[a].key@ == k);
        assert(a != i);
        assert(t[a] == s[a]);
        lemma_key_index(t, k, a);
    }
}

/// The position of the record carrying this key, if any.
pub fn find_key<T>(v: &Vec<KeyedEntry<T>>, k: &Vec<u8>) -> (r: Option<usize>)
    ensures
        match r {
            Some(i) => i < v@.len() && v@[i as int].key@ == k@,
            None => !has_key(v@, k@),
        },
{
    let mut i: usize = 0;
    while i < v.len()
        invariant
            i <= v@.len(),
            forall|j: int| 0 <= j < i ==> (#[trigger] v@[j]).key@ != k@,
        decreases v@.len() - i,
    {
        if bytes_eq(&v[i].key, k) {
            return Some(i);
        }
        i += 1;
    }
    None
}

/// The boolean stored under this key, or the default if the key carries
/// no record.
pub fn flag_lookup(v: &Vec<KeyedEntry<bool>>, k: &Vec<u8>, dflt: bool) -> (r: bool)
    requires
        unique_keys(v@),
    ensures
        r == flag_of(v@, k@, dflt),
{
    match find_key(v, k) {
        Some(i) => {
            proof {
                lemma_key_index(v@, k@, i as int);
            }
            v[i].val
        },
        None => dflt,
    }
}

/// Store a boolean under a key, overwriting any earlier record. Afterwards
/// the key reads back the new value and every other key reads as before.
pub fn set_flag(v: &mut Vec<KeyedEntry<bool>>, k: &Vec<u8>, val: bool)
    requires
        unique_keys(old(v)@),
    ensures
        unique_keys(final(v)@),
        forall|k2: Seq<u8>, d: bool|
            flag_of(final(v)@, k2, d) == if k2 == k@ {
                val
            } else {
                flag_of(old(v)@, k2, d)
            },
{
    match find_key(v, k) {
        Some(i) => {
            let e = KeyedEntry { key: bytes_dup(k), val };
            proof {
                lemma_set_key(v@, i as int, e);
            }
            v.set(i, e);
        },
        None => {
            let e = KeyedEntry { key: bytes_dup(k), val };
            proof {
                lemma_push_key(v@, e);
            }
            v.push(e);
        },
    }
}

} // verus!
