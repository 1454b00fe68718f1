//! The capability registry: the index from (capability key, type key) to a
//! capability descriptor.
//!
//! The registry is populated during a build phase — one `register` call per
//! declared (capability, concrete type) pairing — and is then read through
//! `lookup` and `get_capability`. Registering an already-present key
//! replaces its descriptor atomically, so the last registration wins; this
//! supports test overrides and hot reload. Every read borrows the registry
//! immutably and is a pure function of its contents, so once the build phase
//! is over, any number of readers may share the registry at once.
//!
//! The registry's contents are abstracted as a [`Map`] from key pairs to
//! descriptors; every contract below is stated over that view.

use vstd::prelude::*;

use crate::descriptor::Descriptor;
use crate::erased::Erased;
use crate::keys::CapabilityKey;
use crate::keys::TypeKey;
use crate::values::Value;

verus! {

/// One registered binding.
#[derive(Clone, Copy, PartialEq, Eq, Structural, Debug)]
struct Entry {
    cap: CapabilityKey,
    ty: TypeKey,
    desc: Descriptor,
}

/// The key pair an entry is registered under.
spec fn entry_key(e: Entry) -> (CapabilityKey, TypeKey) {
    (e.cap, e.ty)
}

/// No two entries share a key pair.
spec fn entries_unique(s: Seq<Entry>) -> bool {
    forall|i: int, j: int|
        0 <= i < j < s.len() ==> entry_key(s[i]) != entry_key(s[j])
}

/// The mapping that a sequence of entries represents; a later entry for the
/// same key pair overrides an earlier one.
spec fn map_of(s: Seq<Entry>) -> Map<(CapabilityKey, TypeKey), Descriptor>
    decreases s.len(),
{
    if s.len() == 0 {
        Map::empty()
    } else {
        map_of(s.drop_last()).insert(entry_key(s.last()), s.last().desc)
    }
}

/// A key pair is in the mapping exactly when some entry carries it.
proof fn lemma_map_of_dom(s: Seq<Entry>, k: (CapabilityKey, TypeKey))
    ensures
        map_of(s).contains_key(k) <==> exists|i: int|
            0 <= i < s.len() && entry_key(s[i]) == k,
    decreases s.len(),
{
    if s.len() > 0 {
        lemma_map_of_dom(s.drop_last(), k);
        if entry_key(s.last()) == k {
            assert(entry_key(s[s.len() - 1]) == k);
        } else if map_of(s).contains_key(k) {
            let i = choose|i: int| 0 <= i < s.drop_last().len() && entry_key(
                s.drop_last()[i],
            ) == k;
            assert(entry_key(s[i]) == k);
        } else {
            assert forall|i: int| 0 <= i < s.len() implies entry_key(s[i]) != k by {
                if i < s.len() - 1 {
                    assert(s.drop_last()[i] == s[i]);
                }
            }
        }
    }
}

/// With unique key pairs, the mapping sends each entry's key pair to that
/// entry's descriptor.
proof fn lemma_map_of_index(s: Seq<Entry>, i: int)
    requires
        entries_unique(s),
        0 <= i < s.len(),
    ensures
        map_of(s).contains_key(entry_key(s[i])),
        map_of(s)[entry_key(s[i])] == s[i].desc,
    decreases s.len(),
{
    if i == s.len() - 1 {
        assert(s[i] == s.last());
    } else {
        assert(entries_unique(s.drop_last()));
        assert(s.drop_last()[i] == s[i]);
        lemma_map_of_index(s.drop_last(), i);
        assert(entry_key(s[i]) != entry_key(s[s.len() - 1]));
    }
}

/// Replacing the entry at `i` by one with the same key pair updates the
/// mapping at that key pair alone.
proof fn lemma_map_of_update(s: Seq<Entry>, i: int, e: Entry)
    requires
        entries_unique(s),
        0 <= i < s.len(),
        entry_key(e) == entry_key(s[i]),
    ensures
        map_of(s.update(i, e)) == map_of(s).insert(entry_key(e), e.desc),
    decreases s.len(),
{
    let t = s.update(i, e);
    if i == s.len() - 1 {
        assert(t.drop_last() =~= s.drop_last());
        assert(t.last() == e);
        assert(map_of(t) =~= map_of(s).insert(entry_key(e), e.desc));
    } else {
        assert(entries_unique(s.drop_last()));
        assert(s.drop_last()[i] == s[i]);
        lemma_map_of_update(s.drop_last(), i, e);
        assert(t.drop_last() =~= s.drop_last().update(i, e));
        assert(t.last() == s.last());
        assert(entry_key(e) != entry_key(s.last()));
        assert(map_of(t) =~= map_of(s).insert(entry_key(e), e.desc));
    }
}

/// The central runtime index from (capability key, type key) to the
/// descriptor registered under it.
pub struct CapabilityRegistry {
    entries: Vec<Entry>,
}

impl View for CapabilityRegistry {
    type V = Map<(CapabilityKey, TypeKey), Descriptor>;

    closed spec fn view(&self) -> Map<(CapabilityKey, TypeKey), Descriptor> {
        map_of(self.entries@)
    }
}

impl CapabilityRegistry {
    /// Well-formedness: at most one descriptor is stored per key pair.
    pub closed spec fn wf(self) -> bool {
        entries_unique(self.entries@)
    }

    /// What `lookup` returns: the registered descriptor, if any.
    pub open spec fn spec_lookup(self, cap: CapabilityKey, ty: TypeKey) -> Option<
        Descriptor,
    > {
        if self@.contains_key((cap, ty)) {
            Some(self@[(cap, ty)])
        } else {
            None
        }
    }

    /// What `get_capability` returns: the stored value, exactly when a
    /// descriptor is registered for the value's own type key and that
    /// descriptor was built for the same key.
    pub open spec fn spec_get_capability(self, value: Erased, cap: CapabilityKey) -> Option<
        Value,
    > {
        match self.spec_lookup(cap, value.spec_type_key()) {
            Some(d) => d.spec_get(value),
            None => None,
        }
    }

    /// Creates an empty registry.
    pub fn new() -> (r: CapabilityRegistry)
        ensures
            r.wf(),
            r@ == Map::<(CapabilityKey, TypeKey), Descriptor>::empty(),
    {
        CapabilityRegistry { entries: Vec::new() }
    }

    /// Inserts or atomically replaces the descriptor for `(cap, ty)`.
    ///
    /// The last registration for a key pair wins; no other key pair is
    /// touched. All registration is expected to happen in a build phase,
    /// before the registry is shared for reading.
    pub fn register(&mut self, cap: CapabilityKey, ty: TypeKey, desc: Descriptor)
        requires
            old(self).wf(),
        ensures
            final(self).wf(),
            final(self)@ == old(self)@.insert((cap, ty), desc),
    {
        let e = Entry { cap, ty, desc };
        let n = self.entries.len();
        let mut i: usize = 0;
        while i < n
            invariant
                i <= n,
                n == self.entries.len(),
                old(self).wf(),
                *self == *old(self),
                e == (Entry { cap, ty, desc }),
                forall|j: int| 0 <= j < i ==> entry_key(self.entries@[j]) != (cap, ty),
            decreases n - i,
        {
            let found = self.entries[i];
            if found.cap == cap && found.ty == ty {
                proof {
                    lemma_map_of_update(self.entries@, i as int, e);
                }
                let ghost s = self.entries@;
                self.entries.set(i, e);
                proof {
                    let t = self.entries@;
                    assert forall|a: int, b: int|
                        0 <= a < b < t.len() implies entry_key(t[a]) != entry_key(
                        t[b],
                    ) by {
                        assert(entry_key(t[a]) == entry_key(s[a]));
                        assert(entry_key(t[b]) == entry_key(s[b]));
                    }
                }
                return ;
            }
            i += 1;
        }
        proof {
            lemma_map_of_dom(self.entries@, (cap, ty));
            assert(self.entries@.push(e).drop_last() =~= self.entries@);
        }
        let ghost s = self.entries@;
        self.entries.push(e);
        proof {
            let t = self.entries@;
            assert forall|a: int, b: int|
                0 <= a < b < t.len() implies entry_key(t[a]) != entry_key(t[b]) by {
                assert(entry_key(t[a]) == entry_key(s[a]));
                if b < t.len() - 1 {
                    assert(entry_key(t[b]) == entry_key(s[b]));
                } else {
                    assert(entry_key(s[a]) != (cap, ty));
                }
            }
            assert(self@ =~= old(self)@.insert((cap, ty), desc));
        }
    }

    /// Looks the descriptor for `(cap, ty)` up.
    ///
    /// A pure read: the result is a function of the registry's contents
    /// alone, so repeated lookups for the same key pair agree, and any
    /// number of readers may run at once once registration is over.
    pub fn lookup(&self, cap: CapabilityKey, ty: TypeKey) -> (r: Option<Descriptor>)
        requires
            self.wf(),
        ensures
            r == self.spec_lookup(cap, ty),
    {
        let n = self.entries.len();
        let mut i: usize = 0;
        while i < n
            invariant
                i <= n,
                n == self.entries.len(),
                self.wf(),
                forall|j: int| 0 <= j < i ==> entry_key(self.entries@[j]) != (cap, ty),
            decreases n - i,
        {
            let found = self.entries[i];
            if found.cap == cap && found.ty == ty {
                proof {
                    lemma_map_of_index(self.entries@, i as int);
                }
                return Some(found.desc);
            }
            i += 1;
        }
        proof {
            lemma_map_of_dom(self.entries@, (cap, ty));
        }
        None
    }

    /// The sole entry point consumers use: looks the descriptor for the
    /// erased value's own type key up and, if one is registered, runs its
    /// immutable extractor on the value.
    ///
    /// Absence — the value's type never registered this capability — is a
    /// normal outcome, reported as `None`, never a panic.
    pub fn get_capability<'a>(&self, value: &'a Erased, cap: CapabilityKey) -> (r: Option<
        &'a Value,
    >)
        requires
            self.wf(),
        ensures
            r is Some <==> self.spec_get_capability(*value, cap) is Some,
            r matches Some(v) ==> self.spec_get_capability(*value, cap) == Some(*v),
    {
        match self.lookup(cap, value.type_key()) {
            Some(d) => d.get(value),
            None => None,
        }
    }

    /// The mutable counterpart of `get_capability`: on success the caller
    /// may mutate the stored value through the returned reference.
    pub fn get_capability_mut<'a>(&self, value: &'a mut Erased, cap: CapabilityKey) -> (r:
        Option<&'a mut Value>)
        requires
            self.wf(),
        ensures
            r is Some <==> self.spec_get_capability(*old(value), cap) is Some,
            r is None ==> *final(value) == *old(value),
            r matches Some(v) ==> *v == old(value).spec_payload()
                && final(value).spec_type_key() == old(value).spec_type_key()
                && final(value).spec_payload() == *final(v),
    {
        match self.lookup(cap, value.type_key()) {
            Some(d) => d.get_mut(value),
            None => None,
        }
    }
}

} // verus!
