//! The subscriber registry: for each application type, the identities of the
//! consumers that completed their handshake, in the order in which they did.
//! The first identity recorded for a type is that type's primary.

use crate::application::{ApplicationType, Role};
use vstd::prelude::*;

verus! {

/// The identities recorded under `role`, oldest first; none if the role was
/// never registered.
pub open spec fn registered(subscribers: Map<Role, Seq<Seq<char>>>, role: Role) -> Seq<Seq<char>> {
    if subscribers.dom().contains(role) {
        subscribers[role]
    } else {
        Seq::empty()
    }
}

/// The primary of `role`: the first identity recorded under it.
pub open spec fn primary(subscribers: Map<Role, Seq<Seq<char>>>, role: Role) -> Option<Seq<char>> {
    if registered(subscribers, role).len() > 0 {
        Some(registered(subscribers, role)[0])
    } else {
        None
    }
}

/// The registry after `id` has been recorded under `role`: `id` comes last
/// in the list for `role`, and every other list is untouched.
pub open spec fn with_registration(
    subscribers: Map<Role, Seq<Seq<char>>>,
    role: Role,
    id: Seq<char>,
) -> Map<Role, Seq<Seq<char>>> {
    subscribers.insert(role, registered(subscribers, role).push(id))
}

/// One application type and the identities recorded under it, oldest first.
struct RegistryEntry {
    app_type: ApplicationType,
    identities: Vec<String>,
}

/// The shared, append-only subscriber registry. Its view maps each
/// application type that has registered to its identities, oldest first.
pub struct Registry {
    entries: Vec<RegistryEntry>,
}

/// The identities held in a list, as plain character sequences.
spec fn identities(list: Seq<String>) -> Seq<Seq<char>> {
    list.map_values(|id: String| id@)
}

/// Whether some entry is for `role`.
spec fn holds(entries: Seq<RegistryEntry>, role: Role) -> bool {
    exists|i: int| 0 <= i < entries.len() && (#[trigger] entries[i]).app_type@ == role
}

/// The place of the entry for `role`, where there is one.
spec fn position(entries: Seq<RegistryEntry>, role: Role) -> int {
    choose|i: int| 0 <= i < entries.len() && (#[trigger] entries[i]).app_type@ == role
}

/// No application type has two entries.
spec fn distinct(entries: Seq<RegistryEntry>) -> bool {
    forall|i: int, j: int|
        0 <= i < j < entries.len() ==> (#[trigger] entries[i]).app_type@ != (
        #[trigger] entries[j]).app_type@
}

/// The mapping that a list of entries stands for.
spec fn as_map(entries: Seq<RegistryEntry>) -> Map<Role, Seq<Seq<char>>> {
    Map::new(
        |role: Role| holds(entries, role),
        |role: Role| identities(entries[position(entries, role)].identities@),
    )
}

/// Where no type has two entries, each entry is the one its type maps to.
proof fn lemma_entry_is_mapped(entries: Seq<RegistryEntry>, i: int)
    requires
        distinct(entries),
        0 <= i < entries.len(),
    ensures
        holds(entries, entries[i].app_type@),
        position(entries, entries[i].app_type@) == i,
        as_map(entries)[entries[i].app_type@] == identities(entries[i].identities@),
{
    let role = entries[i].app_type@;
    let p = position(entries, role);
    assert(0 <= p < entries.len() && entries[p].app_type@ == role);
    if p < i {
        assert(entries[p].app_type@ != entries[i].app_type@);
    } else if i < p {
        assert(entries[i].app_type@ != entries[p].app_type@);
    }
}

/// Appending one identity to the list of entry `i` is a registration under
/// that entry's type.
proof fn lemma_identity_appended(before: Seq<RegistryEntry>, after: Seq<RegistryEntry>, i: int)
    requires
        distinct(before),
        0 <= i < before.len(),
        after.len() == before.len(),
        forall|j: int|
            0 <= j < before.len() && j != i ==> (#[trigger] after[j]) == before[j],
        after[i].app_type@ == before[i].app_type@,
        after[i].identities@.len() == before[i].identities@.len() + 1,
        after[i].identities@.drop_last() == before[i].identities@,
    ensures
        distinct(after),
        as_map(after) == as_map(before).insert(
            before[i].app_type@,
            registered(as_map(before), before[i].app_type@).push(after[i].identities@.last()@),
        ),
{
    let role = before[i].app_type@;
    let id = after[i].identities@.last()@;
    let target = as_map(before).insert(role, registered(as_map(before), role).push(id));
    assert forall|j: int| 0 <= j < before.len() implies (#[trigger] after[j]).app_type@
        == before[j].app_type@ by {}
    assert forall|a: int, b: int| 0 <= a < b < after.len() implies (#[trigger] after[a]).app_type@
        != (#[trigger] after[b]).app_type@ by {
        assert(before[a].app_type@ != before[b].app_type@);
    }
    lemma_entry_is_mapped(before, i);
    assert(identities(after[i].identities@) == identities(before[i].identities@).push(id));
    assert forall|r: Role| as_map(after).dom().contains(r) <==> target.dom().contains(r) by {
        if holds(after, r) {
            let p = position(after, r);
            assert(before[p].app_type@ == r);
        }
        if holds(before, r) {
            let p = position(before, r);
            assert(after[p].app_type@ == r);
        }
    }
    assert forall|r: Role| as_map(after).dom().contains(r) implies as_map(after)[r]
        == target[r] by {
        let p = position(after, r);
        assert(before[p].app_type@ == r);
        lemma_entry_is_mapped(after, p);
        lemma_entry_is_mapped(before, p);
    }
    assert(as_map(after) =~= target);
}

/// Appending an entry with one identity, for a type that had none, is a
/// registration under that type.
proof fn lemma_entry_appended(before: Seq<RegistryEntry>, entry: RegistryEntry)
    requires
        distinct(before),
        !holds(before, entry.app_type@),
        entry.identities@.len() == 1,
    ensures
        distinct(before.push(entry)),
        as_map(before.push(entry)) == as_map(before).insert(
            entry.app_type@,
            registered(as_map(before), entry.app_type@).push(entry.identities@[0]@),
        ),
{
    let after = before.push(entry);
    let role = entry.app_type@;
    let target = as_map(before).insert(
        role,
        registered(as_map(before), role).push(entry.identities@[0]@),
    );
    assert forall|a: int, b: int| 0 <= a < b < after.len() implies (#[trigger] after[a]).app_type@
        != (#[trigger] after[b]).app_type@ by {
        if b < before.len() {
            assert(before[a].app_type@ != before[b].app_type@);
        } else {
            assert(before[a].app_type@ != role);
        }
    }
    assert(identities(entry.identities@) == Seq::<Seq<char>>::empty().push(
        entry.identities@[0]@,
    ));
    assert forall|r: Role| as_map(after).dom().contains(r) <==> target.dom().contains(r) by {
        if holds(after, r) {
            let p = position(after, r);
            if p < before.len() {
                assert(before[p].app_type@ == r);
            }
        }
        if holds(before, r) {
            let p = position(before, r);
            assert(after[p].app_type@ == r);
        }
        if r == role {
            assert(after[before.len() as int].app_type@ == r);
        }
    }
    assert forall|r: Role| as_map(after).dom().contains(r) implies as_map(after)[r]
        == target[r] by {
        let p = position(after, r);
        lemma_entry_is_mapped(after, p);
        if p < before.len() {
            assert(before[p].app_type@ == r);
            lemma_entry_is_mapped(before, p);
        }
    }
    assert(as_map(after) =~= target);
}

impl View for Registry {
    type V = Map<Role, Seq<Seq<char>>>;

    closed spec fn view(&self) -> Map<Role, Seq<Seq<char>>> {
        as_map(self.entries@)
    }
}

impl Registry {
    /// Every registry holds at most one entry per application type.
    #[verifier::type_invariant]
    spec fn well_formed(&self) -> bool {
        distinct(self.entries@)
    }

    /// A registry in which nobody has registered.
    pub fn new() -> (registry: Registry)
        ensures
            registry@ == Map::<Role, Seq<Seq<char>>>::empty(),
    {
        let registry = Registry { entries: Vec::new() };
        assert(registry@ =~= Map::<Role, Seq<Seq<char>>>::empty());
        registry
    }

    /// The place of the entry for `app_type`, if there is one.
    fn find(&self, app_type: &ApplicationType) -> (found: Option<usize>)
        ensures
            match found {
                Some(i) => i < self.entries@.len() && self.entries@[i as int].app_type@
                    == app_type@,
                None => !holds(self.entries@, app_type@),
            },
    {
        let mut i: usize = 0;
        while i < self.entries.len()
            invariant
                i <= self.entries@.len(),
                forall|j: int| 0 <= j < i ==> (#[trigger] self.entries@[j]).app_type@ != app_type@,
            decreases self.entries@.len() - i,
        {
            if self.entries[i].app_type.same(app_type) {
                return Some(i);
            }
            i = i + 1;
        }
        None
    }

    /// Whether `id` is the primary of `app_type`: the first identity that
    /// was registered under it. Nobody is the primary of a type under which
    /// nothing was registered.
    pub fn is_primary(&self, app_type: &ApplicationType, id: &String) -> (yes: bool)
        ensures
            yes == (primary(self@, app_type@) == Some(id@)),
    {
        proof {
            use_type_invariant(self);
        }
        match self.find(app_type) {
            Some(i) => {
                proof {
                    lemma_entry_is_mapped(self.entries@, i as int);
                }
                let list = &self.entries[i].identities;
                if list.len() == 0 {
                    false
                } else {
                    list[0] == *id
                }
            },
            None => false,
        }
    }

    /// Records `id` under `app_type`, after every identity recorded under it
    /// before. Nothing else changes: no identity is removed or moved.
    pub fn register(&mut self, app_type: ApplicationType, id: String)
        ensures
            final(self)@ == with_registration(old(self)@, app_type@, id@),
    {
        proof {
            use_type_invariant(&*self);
        }
        let found = self.find(&app_type);
        let ghost before = self.entries@;
        // The entries are taken out while they change and put back at the
        // end, so that the registry is well formed whenever it is looked at.
        let mut entries: Vec<RegistryEntry> = Vec::new();
        core::mem::swap(&mut self.entries, &mut entries);
        match found {
            Some(i) => {
                entries[i].identities.push(id);
                proof {
                    assert(entries@[i as int].identities@.drop_last()
                        == before[i as int].identities@);
                    lemma_identity_appended(before, entries@, i as int);
                }
            },
            None => {
                let mut list: Vec<String> = Vec::new();
                list.push(id);
                let entry = RegistryEntry { app_type, identities: list };
                proof {
                    lemma_entry_appended(before, entry);
                }
                entries.push(entry);
            },
        }
        core::mem::swap(&mut self.entries, &mut entries);
    }
}

} // verus!
