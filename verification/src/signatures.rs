//! The registry of signatures that are still to be applied.
//!
//! The registry maps an owning address to the index of a pending secret key
//! and owns the ordered list of the keys themselves.  Index `i` in the key
//! list corresponds to exactly one address in the mapping.  The key material
//! is scrubbed when the registry is destroyed.

use vstd::prelude::*;
use zeroize::Zeroize;
use crate::inputs::Bech32Address;

verus! {

/// Compares two byte vectors by content.
pub fn bytes_eq(a: &Vec<u8>, b: &Vec<u8>) -> (r: bool)
    ensures
        r <==> a@ == b@,
{
    if a.len() != b.len() {
        proof {
            assert(a@.len() != b@.len());
        }
        return false;
    }
    let n = a.len();
    let mut i: usize = 0;
    while i < n
        invariant
            n == a@.len(),
            n == b@.len(),
            i <= n,
            forall|j: int| 0 <= j < i ==> a@[j] == b@[j],
        decreases n - i,
    {
        if a[i] != b[i] {
            return false;
        }
        i += 1;
    }
    proof {
        assert(a@ =~= b@);
    }
    true
}

/// A process-local table of addresses still awaiting a signature, each
/// mapped to the index of its pending secret key.
pub struct UnresolvedSignatures {
    pub addr_idx_offset_map: Vec<(Bech32Address, u64)>,
    pub secret_keys: Vec<fuel_crypto::SecretKey>,
}

pub struct UnresolvedSignaturesV {
    pub entries: Seq<(Seq<u8>, u64)>,
    pub secret_keys: Seq<fuel_crypto::SecretKey>,
}

impl View for UnresolvedSignatures {
    type V = UnresolvedSignaturesV;

    open spec fn view(&self) -> UnresolvedSignaturesV {
        UnresolvedSignaturesV {
            entries: self.addr_idx_offset_map@.map(
                |i: int, e: (Bech32Address, u64)| (e.0@, e.1),
            ),
            secret_keys: self.secret_keys@,
        }
    }
}

/// The registry index of the pending key for address `a`, if any.
pub open spec fn spec_lookup(entries: Seq<(Seq<u8>, u64)>, a: Seq<u8>) -> Option<u64>
    decreases entries.len(),
{
    if entries.len() == 0 {
        None
    } else if entries[0].0 == a {
        Some(entries[0].1)
    } else {
        spec_lookup(entries.drop_first(), a)
    }
}

/// Well-formedness of a registry: every mapped index refers to a pending
/// key, and each address occurs at most once.
pub open spec fn registry_wf(v: UnresolvedSignaturesV) -> bool {
    &&& v.entries.len() <= v.secret_keys.len()
    &&& forall|i: int|
        0 <= i < v.entries.len() ==> (#[trigger] v.entries[i]).1 < v.secret_keys.len()
    &&& forall|i: int, j: int|
        0 <= i < v.entries.len() && 0 <= j < v.entries.len() && i != j ==> (
        #[trigger] v.entries[i]).0 != (#[trigger] v.entries[j]).0
}

proof fn lemma_lookup_after_replace(
    entries: Seq<(Seq<u8>, u64)>,
    pos: int,
    a: Seq<u8>,
    idx: u64,
    probe: Seq<u8>,
)
    requires
        0 <= pos < entries.len(),
        entries[pos].0 == a,
        forall|j: int| 0 <= j < pos ==> (#[trigger] entries[j]).0 != a,
    ensures
        spec_lookup(entries.update(pos, (a, idx)), probe) == (if probe == a {
            Some(idx)
        } else {
            spec_lookup(entries, probe)
        }),
    decreases entries.len(),
{
    let updated = entries.update(pos, (a, idx));
    if pos == 0 {
        if probe != a {
            assert(updated.drop_first() =~= entries.drop_first());
        }
    } else {
        assert(updated[0] == entries[0]);
        assert(updated.drop_first() =~= entries.drop_first().update(pos - 1, (a, idx)));
        lemma_lookup_after_replace(entries.drop_first(), pos - 1, a, idx, probe);
    }
}

proof fn lemma_lookup_after_push(
    entries: Seq<(Seq<u8>, u64)>,
    a: Seq<u8>,
    idx: u64,
    probe: Seq<u8>,
)
    requires
        forall|j: int| 0 <= j < entries.len() ==> (#[trigger] entries[j]).0 != a,
    ensures
        spec_lookup(entries.push((a, idx)), probe) == (if probe == a {
            Some(idx)
        } else {
            spec_lookup(entries, probe)
        }),
    decreases entries.len(),
{
    let pushed = entries.push((a, idx));
    if entries.len() == 0 {
        assert(pushed[0] == (a, idx));
        assert(pushed.drop_first() =~= Seq::<(Seq<u8>, u64)>::empty());
    } else {
        assert(pushed[0] == entries[0]);
        assert(pushed.drop_first() =~= entries.drop_first().push((a, idx)));
        lemma_lookup_after_push(entries.drop_first(), a, idx, probe);
    }
}

proof fn lemma_lookup_found(entries: Seq<(Seq<u8>, u64)>, pos: int, a: Seq<u8>)
    requires
        0 <= pos < entries.len(),
        entries[pos].0 == a,
        forall|j: int| 0 <= j < pos ==> (#[trigger] entries[j]).0 != a,
    ensures
        spec_lookup(entries, a) == Some(entries[pos].1),
    decreases entries.len(),
{
    if pos > 0 {
        assert(entries.drop_first()[pos - 1] == entries[pos]);
        assert(forall|j: int|
            0 <= j < pos - 1 ==> (#[trigger] entries.drop_first()[j]).0 != a);
        lemma_lookup_found(entries.drop_first(), pos - 1, a);
    }
}

proof fn lemma_lookup_none(entries: Seq<(Seq<u8>, u64)>, a: Seq<u8>)
    requires
        forall|j: int| 0 <= j < entries.len() ==> (#[trigger] entries[j]).0 != a,
    ensures
        spec_lookup(entries, a) is None,
    decreases entries.len(),
{
    if entries.len() > 0 {
        assert(forall|j: int|
            0 <= j < entries.drop_first().len() ==> (#[trigger] entries.drop_first()[j]).0 != a);
        lemma_lookup_none(entries.drop_first(), a);
    }
}

/// A successful lookup returns an index held by some entry.
pub proof fn lemma_lookup_in_range(entries: Seq<(Seq<u8>, u64)>, a: Seq<u8>)
    requires
        spec_lookup(entries, a) is Some,
    ensures
        exists|i: int|
            0 <= i < entries.len() && (#[trigger] entries[i]) == (
            a,
            spec_lookup(entries, a).unwrap(),
            ),
    decreases entries.len(),
{
    if entries.len() > 0 && entries[0].0 != a {
        lemma_lookup_in_range(entries.drop_first(), a);
        let i = choose|i: int|
            0 <= i < entries.drop_first().len() && (#[trigger] entries.drop_first()[i]) == (
            a,
            spec_lookup(entries.drop_first(), a).unwrap(),
            );
        assert(entries[i + 1] == entries.drop_first()[i]);
    }
}

impl UnresolvedSignatures {
    /// An empty registry.
    pub fn new() -> (r: Self)
        ensures
            r@.entries == Seq::<(Seq<u8>, u64)>::empty(),
            r@.secret_keys == Seq::<fuel_crypto::SecretKey>::empty(),
            registry_wf(r@),
    {
        let r = UnresolvedSignatures { addr_idx_offset_map: Vec::new(), secret_keys: Vec::new() };
        proof {
            assert(r@.entries =~= Seq::<(Seq<u8>, u64)>::empty());
        }
        r
    }

    /// Number of addresses awaiting a signature.
    pub fn num_pending(&self) -> (r: usize)
        ensures
            r == self@.entries.len(),
    {
        self.addr_idx_offset_map.len()
    }

    /// Number of pending secret keys.
    pub fn num_keys(&self) -> (r: usize)
        ensures
            r == self@.secret_keys.len(),
    {
        self.secret_keys.len()
    }

    /// The registry index of the pending key for `owner`, if any.
    pub fn lookup(&self, owner: &Bech32Address) -> (r: Option<u64>)
        ensures
            r == spec_lookup(self@.entries, owner@),
    {
        let ghost entries = self@.entries;
        let n = self.addr_idx_offset_map.len();
        let mut i: usize = 0;
        proof {
            assert(entries.skip(0) == entries);
        }
        while i < n
            invariant
                n == self.addr_idx_offset_map.len(),
                entries == self@.entries,
                entries.len() == n,
                i <= n,
                spec_lookup(entries, owner@) == spec_lookup(entries.skip(i as int), owner@),
        decreases n - i,
        {
            proof {
                assert(entries.skip(i as int)[0] == entries[i as int]);
                assert(entries.skip(i as int).drop_first() =~= entries.skip(i as int + 1));
            }
            let entry = &self.addr_idx_offset_map[i];
            if bytes_eq(&entry.0.hash, &owner.hash) {
                return Some(entry.1);
            }
            i += 1;
        }
        proof {
            assert(entries.skip(n as int) =~= Seq::<(Seq<u8>, u64)>::empty());
        }
        None
    }

    /// The position of `owner` in the mapping, or the mapping's length when
    /// the address is absent.
    fn find_index(&self, owner: &Bech32Address) -> (r: usize)
        ensures
            r <= self@.entries.len(),
            r < self@.entries.len() ==> self@.entries[r as int].0 == owner@,
            forall|j: int| 0 <= j < r ==> (#[trigger] self@.entries[j]).0 != owner@,
    {
        let n = self.addr_idx_offset_map.len();
        let mut i: usize = 0;
        while i < n
            invariant
                n == self.addr_idx_offset_map.len(),
                self@.entries.len() == n,
                i <= n,
                forall|j: int| 0 <= j < i ==> (#[trigger] self@.entries[j]).0 != owner@,
            decreases n - i,
        {
            let entry = &self.addr_idx_offset_map[i];
            if bytes_eq(&entry.0.hash, &owner.hash) {
                return i;
            }
            i += 1;
        }
        n
    }

    /// Registers one (address, key) pair: the key is appended to the key
    /// list, and the address is mapped to the new key's index, replacing
    /// any earlier mapping for the same address.
    pub fn add(&mut self, owner: Bech32Address, secret_key: fuel_crypto::SecretKey)
        requires
            registry_wf(old(self)@),
        ensures
            final(self)@.secret_keys == old(self)@.secret_keys.push(secret_key),
            forall|a: Seq<u8>|
                #[trigger] spec_lookup(final(self)@.entries, a) == (if a == owner@ {
                    Some(old(self)@.secret_keys.len() as u64)
                } else {
                    spec_lookup(old(self)@.entries, a)
                }),
            final(self)@.entries.len() == (if spec_lookup(old(self)@.entries, owner@) is Some {
                old(self)@.entries.len()
            } else {
                old(self)@.entries.len() + 1
            }),
            registry_wf(final(self)@),
    {
        let ghost old_entries = self@.entries;
        let pos = self.find_index(&owner);
        let idx = self.secret_keys.len() as u64;
        self.secret_keys.push(secret_key);

        let n = self.addr_idx_offset_map.len();
        if pos < n {
            proof {
                assert(old_entries[pos as int].0 == owner@);
                lemma_lookup_found(old_entries, pos as int, owner@);
            }
            let _replaced = self.addr_idx_offset_map.remove(pos);
            self.addr_idx_offset_map.insert(pos, (owner, idx));
            proof {
                let new_entries = self@.entries;
                assert(new_entries =~= old_entries.update(pos as int, (owner@, idx)));
                assert forall|a: Seq<u8>|
                    #[trigger] spec_lookup(new_entries, a) == (if a == owner@ {
                        Some(idx)
                    } else {
                        spec_lookup(old_entries, a)
                    }) by {
                    lemma_lookup_after_replace(old_entries, pos as int, owner@, idx, a);
                }
            }
        } else {
            self.addr_idx_offset_map.push((owner, idx));
            proof {
                lemma_lookup_none(old_entries, owner@);
                let new_entries = self@.entries;
                assert(new_entries =~= old_entries.push((owner@, idx)));
                assert forall|a: Seq<u8>|
                    #[trigger] spec_lookup(new_entries, a) == (if a == owner@ {
                        Some(idx)
                    } else {
                        spec_lookup(old_entries, a)
                    }) by {
                    lemma_lookup_after_push(old_entries, owner@, idx, a);
                }
            }
        }
    }
}

impl Drop for UnresolvedSignatures {
    /// Relies on zeroize::Zeroize for Vec: every pending secret key is
    /// overwritten with zeros when the registry is destroyed.
    #[verifier::external_body]
    fn drop(&mut self)
        opens_invariants none
        no_unwind
    {
        self.secret_keys.zeroize();
    }
}

} // verus!
