//! The activation / alias store: a name bound to exactly one version,
//! persisted on disk as a symbolic link into the versions subtree. This
//! module is the in-memory model the engine decides over; its view is the
//! map from alias names to version shapes. Creating an alias is
//! idempotent, and alias mutation never touches the versions subtree.

use vstd::prelude::*;
use vstd::string::StrSliceExecFns;

use crate::error::FrumError;
use crate::input_version::duplicate_version;
use crate::input_version::vkey;
use crate::text::str_eq;
use crate::version::SemverView;
use crate::version::Version;

verus! {

/// The map an alias list denotes; a later entry for a name wins.
pub open spec fn store_map(entries: Seq<(String, Version)>) -> Map<Seq<char>, Option<SemverView>>
    decreases entries.len(),
{
    if entries.len() == 0 {
        Map::empty()
    } else {
        store_map(entries.drop_last()).insert(entries.last().0@, vkey(entries.last().1))
    }
}

/// The alias store: one entry per name.
pub struct AliasStore {
    entries: Vec<(String, Version)>,
}

impl AliasStore {
    /// The store as a map from alias name to the bound version's shape.
    pub closed spec fn view(&self) -> Map<Seq<char>, Option<SemverView>> {
        store_map(self.entries@)
    }

    /// Every name occurs at most once.
    pub closed spec fn wf(&self) -> bool {
        forall|i: int, j: int|
            0 <= i < j < self.entries@.len() ==> (#[trigger] self.entries@[i]).0@ != (
            #[trigger] self.entries@[j]).0@
    }

    /// An empty store.
    pub fn new() -> (r: AliasStore)
        ensures
            r.wf(),
            r@ == Map::<Seq<char>, Option<SemverView>>::empty(),
    {
        AliasStore { entries: Vec::new() }
    }

    /// Index of the entry for `name`, when there is one.
    fn find(&self, name: &str) -> (r: Option<usize>)
        ensures
            r matches Some(i) ==> i < self.entries@.len() && self.entries@[i as int].0@ == name@,
            r is None ==> forall|i: int|
                0 <= i < self.entries@.len() ==> (#[trigger] self.entries@[i]).0@ != name@,
    {
        let mut i: usize = 0;
        while i < self.entries.len()
            invariant
                0 <= i <= self.entries@.len(),
                forall|k: int| 0 <= k < i ==> (#[trigger] self.entries@[k]).0@ != name@,
            decreases self.entries@.len() - i,
        {
            if str_eq(self.entries[i].0.as_str(), name) {
                return Some(i);
            }
            i = i + 1;
        }
        None
    }

    /// (Re)binds `name` to `version`, provided the target version's
    /// installation directory exists; the caller reports that as
    /// `target_installed`. Re-creating an alias with the same target
    /// leaves the store in the same observable state, and nothing but the
    /// named alias changes.
    pub fn create_alias(&mut self, name: &str, version: &Version, target_installed: bool) -> (r:
        Result<(), FrumError>)
        requires
            old(self).wf(),
        ensures
            final(self).wf(),
            target_installed ==> r is Ok && final(self)@ == old(self)@.insert(
                name@,
                vkey(*version),
            ),
            !target_installed ==> r == Err::<(), FrumError>(FrumError::FilesystemFailure)
                && final(self)@ == old(self)@,
    {
        if !target_installed {
            return Err(FrumError::FilesystemFailure);
        }
        let entry = (name.to_owned(), duplicate_version(version));
        match self.find(name) {
            Some(i) => {
                proof {
                    lemma_store_map_remove(self.entries@, i as int);
                }
                let _old_entry = self.entries.remove(i);
                proof {
                    assert forall|a: int, b: int|
                        0 <= a < b < self.entries@.len() implies (#[trigger] self.entries@[a]).0@
                        != (#[trigger] self.entries@[b]).0@ by {
                        let e0 = old(self).entries@;
                        let a0 = if a < i { a } else { a + 1 };
                        let b0 = if b < i { b } else { b + 1 };
                        assert(self.entries@[a] == e0[a0] && self.entries@[b] == e0[b0]);
                    }
                    assert forall|k: int| 0 <= k < self.entries@.len() implies (
                    #[trigger] self.entries@[k]).0@ != name@ by {
                        let e0 = old(self).entries@;
                        let k0 = if k < i { k } else { k + 1 };
                        assert(self.entries@[k] == e0[k0]);
                    }
                }
                let ghost mid = self.entries@;
                self.entries.push(entry);
                proof {
                    assert(self.entries@.drop_last() =~= mid);
                    assert(final(self)@ == store_map(mid).insert(name@, vkey(*version)));
                    assert(store_map(old(self).entries@).remove(name@).insert(
                        name@,
                        vkey(*version),
                    ) =~= store_map(old(self).entries@).insert(name@, vkey(*version)));
                }
                Ok(())
            },
            None => {
                let ghost mid = self.entries@;
                self.entries.push(entry);
                proof {
                    assert(self.entries@.drop_last() =~= mid);
                }
                Ok(())
            },
        }
    }

    /// Follows an alias: the bound version's shape, `None` when the name
    /// is not bound. Whether the target directory still exists — a
    /// dangling alias — is for the caller to check against the installed
    /// set.
    pub fn resolve_alias(&self, name: &str) -> (r: Option<Version>)
        requires
            self.wf(),
        ensures
            r matches Some(v) ==> self@.contains_key(name@) && self@[name@] == vkey(v),
            r is None ==> !self@.contains_key(name@),
    {
        match self.find(name) {
            Some(i) => {
                proof {
                    lemma_store_map_lookup(self.entries@, i as int);
                }
                Some(duplicate_version(&self.entries[i].1))
            },
            None => {
                proof {
                    lemma_store_map_absent(self.entries@, name@);
                }
                None
            },
        }
    }
}

/// A name none of the entries carries is not in the map.
proof fn lemma_store_map_absent(entries: Seq<(String, Version)>, name: Seq<char>)
    requires
        forall|i: int| 0 <= i < entries.len() ==> (#[trigger] entries[i]).0@ != name,
    ensures
        !store_map(entries).contains_key(name),
    decreases entries.len(),
{
    if entries.len() > 0 {
        assert(entries.last() == entries[entries.len() - 1]);
        lemma_store_map_absent(entries.drop_last(), name);
    }
}

/// With unique names, the entry for a name gives its map value.
proof fn lemma_store_map_lookup(entries: Seq<(String, Version)>, i: int)
    requires
        0 <= i < entries.len(),
        forall|a: int, b: int|
            0 <= a < b < entries.len() ==> (#[trigger] entries[a]).0@ != (#[trigger] entries[b]).0@,
    ensures
        store_map(entries).contains_key(entries[i].0@),
        store_map(entries)[entries[i].0@] == vkey(entries[i].1),
    decreases entries.len(),
{
    assert(entries.last() == entries[entries.len() - 1]);
    if i == entries.len() - 1 {
    } else {
        lemma_store_map_lookup(entries.drop_last(), i);
        assert(entries.drop_last()[i] == entries[i]);
        assert(entries[i].0@ != entries[entries.len() - 1].0@);
    }
}

/// With unique names, removing the entry for a name removes the name.
proof fn lemma_store_map_remove(entries: Seq<(String, Version)>, i: int)
    requires
        0 <= i < entries.len(),
        forall|a: int, b: int|
            0 <= a < b < entries.len() ==> (#[trigger] entries[a]).0@ != (#[trigger] entries[b]).0@,
    ensures
        store_map(entries.remove(i)) == store_map(entries).remove(entries[i].0@),
    decreases entries.len(),
{
    let name = entries[i].0@;
    assert(entries.last() == entries[entries.len() - 1]);
    if i == entries.len() - 1 {
        assert(entries.remove(i) =~= entries.drop_last());
        lemma_store_map_absent(entries.drop_last(), name);
        assert(store_map(entries.drop_last()) =~= store_map(entries.drop_last()).remove(name));
        assert(store_map(entries).remove(name) =~= store_map(entries.drop_last()));
    } else {
        lemma_store_map_remove(entries.drop_last(), i);
        assert(entries.remove(i).drop_last() =~= entries.drop_last().remove(i));
        assert(entries.remove(i).last() == entries.last());
        assert(store_map(entries.remove(i)) == store_map(entries.drop_last().remove(i)).insert(
            entries.last().0@,
            vkey(entries.last().1),
        ));
        assert(entries.drop_last()[i] == entries[i]);
        assert(name != entries.last().0@);
        assert(store_map(entries.drop_last()).remove(name).insert(
            entries.last().0@,
            vkey(entries.last().1),
        ) =~= store_map(entries.drop_last()).insert(
            entries.last().0@,
            vkey(entries.last().1),
        ).remove(name));
    }
}

/// Idempotence of alias creation: binding the same name to the same
/// target twice leaves the store in the same observable state as binding
/// it once.
pub proof fn lemma_create_alias_idempotent(
    m: Map<Seq<char>, Option<SemverView>>,
    name: Seq<char>,
    k: Option<SemverView>,
)
    ensures
        m.insert(name, k).insert(name, k) == m.insert(name, k),
{
    assert(m.insert(name, k).insert(name, k) =~= m.insert(name, k));
}

/// Alias creation changes no other binding: everything previously bound
/// under a different name keeps its target.
pub proof fn lemma_create_alias_frames(
    m: Map<Seq<char>, Option<SemverView>>,
    name: Seq<char>,
    k: Option<SemverView>,
    other: Seq<char>,
)
    requires
        other != name,
    ensures
        m.insert(name, k).contains_key(other) == m.contains_key(other),
        m.contains_key(other) ==> m.insert(name, k)[other] == m[other],
{
}

} // verus!
