//! Capability checks that gate every entry point before it changes anything.

use vstd::prelude::*;
use crate::env::AccessError;
use crate::registry::{lemma_map_of_keys, Registry};

verus! {

/// The identifiers that `ids` holds.
pub open spec fn id_set(ids: Seq<String>) -> Set<Seq<char>> {
    ids.map_values(|s: String| s@).to_set()
}

/// A set of account identifiers (a deny-list, an allow-list, a privileged set).
pub struct AccountSet {
    members: Registry<()>,
}

impl View for AccountSet {
    type V = Set<Seq<char>>;

    closed spec fn view(&self) -> Set<Seq<char>> {
        self.members@.dom()
    }
}

impl AccountSet {
    pub closed spec fn wf(&self) -> bool {
        self.members.wf()
    }

    pub fn new() -> (r: Self)
        ensures
            r.wf(),
            r@ == Set::<Seq<char>>::empty(),
    {
        let r = AccountSet { members: Registry::new() };
        assert(r@ =~= Set::<Seq<char>>::empty());
        r
    }

    pub fn contains(&self, id: &String) -> (r: bool)
        requires
            self.wf(),
        ensures
            r == self@.contains(id@),
    {
        self.members.contains_key(id)
    }

    /// Adds `id`; adding a member again changes nothing.
    pub fn insert(&mut self, id: String)
        requires
            old(self).wf(),
        ensures
            final(self).wf(),
            final(self)@ == old(self)@.insert(id@),
    {
        self.members.insert(id, ());
        assert(self@ =~= old(self)@.insert(id@));
    }

    /// Removes `id`; removing a non-member changes nothing.
    pub fn remove(&mut self, id: &String)
        requires
            old(self).wf(),
        ensures
            final(self).wf(),
            final(self)@ == old(self)@.remove(id@),
    {
        let _ = self.members.remove(id);
        assert(self@ =~= old(self)@.remove(id@));
    }

    /// Adds every account of `ids`.
    pub fn insert_all(&mut self, ids: &Vec<String>)
        requires
            old(self).wf(),
        ensures
            final(self).wf(),
            final(self)@ == old(self)@ + id_set(ids@),
    {
        let ghost all = ids@.map_values(|s: String| s@);
        let mut i: usize = 0;
        while i < ids.len()
            invariant
                self.wf(),
                i <= ids@.len(),
                all == ids@.map_values(|s: String| s@),
                self@ == old(self)@ + all.subrange(0, i as int).to_set(),
            decreases ids@.len() - i,
        {
            self.insert(ids[i].clone());
            proof {
                let s0 = all.subrange(0, i as int);
                let s1 = all.subrange(0, i + 1);
                assert forall|x: Seq<char>| s1.contains(x) <==> (s0.contains(x) || x == all[i as int]) by {
                    if s1.contains(x) {
                        let j = choose|j: int| 0 <= j < s1.len() && s1[j] == x;
                        if j < i {
                            assert(s0[j] == x);
                        }
                    }
                    if s0.contains(x) {
                        let j = choose|j: int| 0 <= j < s0.len() && s0[j] == x;
                        assert(s1[j] == x);
                    }
                    if x == all[i as int] {
                        assert(s1[i as int] == x);
                    }
                }
                assert(s1.to_set() =~= s0.to_set().insert(all[i as int]));
                assert(self@ =~= old(self)@ + s1.to_set());
            }
            i = i + 1;
        }
        assert(all.subrange(0, all.len() as int) =~= all);
    }

    /// The set of the accounts of `ids`.
    pub fn from_members(ids: Vec<String>) -> (r: Self)
        ensures
            r.wf(),
            r@ == id_set(ids@),
    {
        let mut r = AccountSet::new();
        r.insert_all(&ids);
        assert(r@ =~= id_set(ids@));
        r
    }

    /// The members, each once.
    pub fn into_members(self) -> (r: Vec<String>)
        requires
            self.wf(),
        ensures
            id_set(r@) == self@,
            r@.map_values(|s: String| s@).no_duplicates(),
    {
        let entries = self.members.into_entries();
        let mut out: Vec<String> = Vec::new();
        let mut i: usize = 0;
        while i < entries.len()
            invariant
                i <= entries@.len(),
                out@.len() == i,
                forall|j: int| 0 <= j < i ==> (#[trigger] out@[j])@ == entries@[j].0@,
            decreases entries@.len() - i,
        {
            out.push(entries[i].0.clone());
            i = i + 1;
        }
        proof {
            let keys = out@.map_values(|s: String| s@);
            assert forall|x: Seq<char>| keys.contains(x) <==> self@.contains(x) by {
                lemma_map_of_keys(entries@, x);
                if keys.contains(x) {
                    let j = choose|j: int| 0 <= j < keys.len() && keys[j] == x;
                    assert(entries@[j].0@ == x);
                }
                if self@.contains(x) {
                    let j = choose|j: int| 0 <= j < entries@.len() && (#[trigger] entries@[j]).0@ == x;
                    assert(keys[j] == x);
                }
            }
            assert(keys.to_set() =~= self@);
            assert forall|a: int, b: int| 0 <= a < keys.len() && 0 <= b < keys.len() && a != b implies keys[a]
                != keys[b] by {
                assert(entries@[a].0@ != entries@[b].0@);
            }
        }
        out
    }

    /// Number of members.
    pub fn len(&self) -> (n: usize)
        requires
            self.wf(),
        ensures
            self@.finite(),
            n == self@.len(),
    {
        proof {
            self.members.lemma_len();
        }
        self.members.len()
    }
}

/// What an entry point requires of its caller.
#[derive(Debug, Clone, Copy, PartialEq, Eq, Structural)]
pub enum Capability {
    /// The caller is the service itself.
    SelfOnly,
    /// The caller belongs to the given privileged set.
    Privileged,
    /// The caller is not on the given deny-list.
    NotDenied,
}

/// Whether `caller` holds `cap` in a service named `own_id`, given the set
/// that the capability consults.
pub open spec fn permits(cap: Capability, caller: Seq<char>, own_id: Seq<char>, list: Set<Seq<char>>) -> bool {
    match cap {
        Capability::SelfOnly => caller == own_id,
        Capability::Privileged => list.contains(caller),
        Capability::NotDenied => !list.contains(caller),
    }
}

/// The refusal that goes with a missing capability.
pub open spec fn refusal(cap: Capability) -> AccessError {
    match cap {
        Capability::SelfOnly => AccessError::NotSelf,
        Capability::Privileged => AccessError::NotPrivileged,
        Capability::NotDenied => AccessError::Denied,
    }
}

/// Checks that `caller` holds `cap`; `list` is the privileged set or the
/// deny-list that the capability consults, and is not read for `SelfOnly`.
pub fn authorize(caller: &String, cap: Capability, own_id: &String, list: &AccountSet) -> (r: Result<(), AccessError>)
    requires
        list.wf(),
    ensures
        r is Ok <==> permits(cap, caller@, own_id@, list@),
        r is Err ==> r == Err::<(), AccessError>(refusal(cap)),
{
    let ok = match cap {
        Capability::SelfOnly => *caller == *own_id,
        Capability::Privileged => list.contains(caller),
        Capability::NotDenied => !list.contains(caller),
    };
    if ok {
        Ok(())
    } else {
        match cap {
            Capability::SelfOnly => Err(AccessError::NotSelf),
            Capability::Privileged => Err(AccessError::NotPrivileged),
            Capability::NotDenied => Err(AccessError::Denied),
        }
    }
}

} // verus!
