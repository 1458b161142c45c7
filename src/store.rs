use vstd::prelude::*;
use crate::digest::{copy_bytes, same_bytes};

verus! {

/// One record of a relation keyed by identity.
pub struct Entry {
    pub key: Vec<u8>,
    pub value: Vec<u8>,
}

/// No two records share a key.
pub open spec fn keys_unique(entries: Seq<Entry>) -> bool {
    forall|i: int, j: int|
        0 <= i < entries.len() && 0 <= j < entries.len() && #[trigger] entries[i].key@
            == #[trigger] entries[j].key@ ==> i == j
}

/// The value recorded under `key`, if any.
pub open spec fn lookup(entries: Seq<Entry>, key: Seq<u8>) -> Option<Seq<u8>> {
    if exists|i: int| 0 <= i < entries.len() && #[trigger] entries[i].key@ == key {
        let i = choose|i: int| 0 <= i < entries.len() && #[trigger] entries[i].key@ == key;
        Some(entries[i].value@)
    } else {
        None
    }
}

/// `who` is among the identities listed.
pub open spec fn listed(ids: Seq<Vec<u8>>, who: Seq<u8>) -> bool {
    exists|i: int| 0 <= i < ids.len() && #[trigger] ids[i]@ == who
}

pub(crate) fn find_entry(entries: &Vec<Entry>, key: &Vec<u8>) -> (r: Option<usize>)
    requires
        keys_unique(entries@),
    ensures
        match r {
            Some(i) => i < entries@.len() && entries@[i as int].key@ == key@ && lookup(
                entries@,
                key@,
            ) == Some(entries@[i as int].value@),
            None => lookup(entries@, key@).is_none(),
        },
{
    let mut i: usize = 0;
    while i < entries.len()
        invariant
            0 <= i <= entries@.len(),
            keys_unique(entries@),
            forall|j: int| 0 <= j < i ==> #[trigger] entries@[j].key@ != key@,
        decreases entries@.len() - i,
    {
        if same_bytes(&entries[i].key, key) {
            proof {
                let k = key@;
                assert(entries@[i as int].key@ == k);
                let j = choose|j: int| 0 <= j < entries@.len() && #[trigger] entries@[j].key@ == k;
                assert(entries@[j].key@ == entries@[i as int].key@);
            }
            return Some(i);
        }
        i = i + 1;
    }
    None
}

pub(crate) fn put_entry(entries: &mut Vec<Entry>, key: &Vec<u8>, value: &Vec<u8>)
    requires
        keys_unique(old(entries)@),
    ensures
        keys_unique(final(entries)@),
        lookup(final(entries)@, key@) == Some(value@),
        forall|k: Seq<u8>| k != key@ ==> lookup(final(entries)@, k) == lookup(old(entries)@, k),
{
    let found = find_entry(entries, key);
    let e = Entry { key: copy_bytes(key), value: copy_bytes(value) };
    let ghost at: int;
    match found {
        Some(i) => {
            entries.set(i, e);
            proof {
                at = i as int;
            }
        },
        None => {
            entries.push(e);
            proof {
                at = entries@.len() - 1;
            }
        },
    }
    assert(entries@[at].key@ == key@);
    assert(keys_unique(entries@));
    proof {
        let k = key@;
        let j = choose|j: int| 0 <= j < entries@.len() && #[trigger] entries@[j].key@ == k;
        assert(entries@[j].key@ == entries@[at].key@);
    }
    assert forall|k: Seq<u8>| k != key@ implies lookup(entries@, k) == lookup(old(entries)@, k) by {
        if exists|i: int| 0 <= i < old(entries)@.len() && #[trigger] old(entries)@[i].key@ == k {
            let i = choose|i: int| 0 <= i < old(entries)@.len() && #[trigger] old(entries)@[i].key@ == k;
            assert(entries@[i].key@ == k);
        }
        if exists|i: int| 0 <= i < entries@.len() && #[trigger] entries@[i].key@ == k {
            let i = choose|i: int| 0 <= i < entries@.len() && #[trigger] entries@[i].key@ == k;
            assert(old(entries)@[i].key@ == k);
        }
    }
}

pub(crate) fn contains_bytes(ids: &Vec<Vec<u8>>, who: &Vec<u8>) -> (r: bool)
    ensures
        r == listed(ids@, who@),
{
    let mut i: usize = 0;
    while i < ids.len()
        invariant
            0 <= i <= ids@.len(),
            forall|j: int| 0 <= j < i ==> #[trigger] ids@[j]@ != who@,
        decreases ids@.len() - i,
    {
        if same_bytes(&ids[i], who) {
            return true;
        }
        i = i + 1;
    }
    false
}

} // verus!
