use vstd::prelude::*;
use crate::kitty::Kitty;

verus! {

/// The store of kitties, keyed by owner and local id, with the global counter
/// from which the next local id is drawn.
pub struct Registry {
    entries: Vec<(u64, u32, Kitty)>,
    next_id: u32,
    map: Ghost<Map<(u64, u32), Kitty>>,
}

/// The key of a stored entry.
pub open spec fn key_of(e: (u64, u32, Kitty)) -> (u64, u32) {
    (e.0, e.1)
}

/// The entry under `key`, if any.
pub open spec fn lookup(m: Map<(u64, u32), Kitty>, key: (u64, u32)) -> Option<Kitty> {
    if m.contains_key(key) {
        Some(m[key])
    } else {
        None
    }
}

impl Registry {
    /// What the registry holds: a kitty for each (owner, local id) in use.
    pub closed spec fn kitties(&self) -> Map<(u64, u32), Kitty> {
        self.map@
    }

    /// The value of the global counter.
    pub closed spec fn counter(&self) -> u32 {
        self.next_id
    }

    /// Each key is held once, and the entries hold exactly the map.
    pub closed spec fn wf(&self) -> bool {
        &&& forall|i: int, j: int|
            0 <= i < self.entries@.len() && 0 <= j < self.entries@.len() && i != j
                ==> key_of(#[trigger] self.entries@[i]) != key_of(#[trigger] self.entries@[j])
        &&& forall|i: int|
            0 <= i < self.entries@.len() ==> {
                &&& self.map@.contains_key(key_of(#[trigger] self.entries@[i]))
                &&& self.map@[key_of(self.entries@[i])] == self.entries@[i].2
            }
        &&& forall|k: (u64, u32)|
            #[trigger] self.map@.contains_key(k) ==> exists|i: int|
                0 <= i < self.entries@.len() && key_of(#[trigger] self.entries@[i]) == k
    }

    /// An empty registry whose counter stands at 0.
    pub fn new() -> (r: Registry)
        ensures
            r.wf(),
            r.kitties() == Map::<(u64, u32), Kitty>::empty(),
            r.counter() == 0,
    {
        Registry { entries: Vec::new(), next_id: 0, map: Ghost(Map::empty()) }
    }

    /// The position of the entry under (`owner`, `id`), if there is one.
    fn find(&self, owner: u64, id: u32) -> (r: Option<usize>)
        requires
            self.wf(),
        ensures
            match r {
                Some(i) => i < self.entries@.len() && key_of(self.entries@[i as int]) == (owner, id),
                None => !self.kitties().contains_key((owner, id)),
            },
    {
        let mut i: usize = 0;
        while i < self.entries.len()
            invariant
                self.wf(),
                i <= self.entries@.len(),
                forall|j: int| 0 <= j < i ==> key_of(#[trigger] self.entries@[j]) != (owner, id),
            decreases self.entries@.len() - i,
        {
            let e = &self.entries[i];
            if e.0 == owner && e.1 == id {
                return Some(i);
            }
            i = i + 1;
        }
        None
    }

    /// Looks up the kitty that `owner` holds under `id`.
    pub fn get(&self, owner: u64, id: u32) -> (r: Option<Kitty>)
        requires
            self.wf(),
        ensures
            r == lookup(self.kitties(), (owner, id)),
    {
        match self.find(owner, id) {
            Some(i) => Some(self.entries[i].2),
            None => None,
        }
    }

    /// The current value of the global counter.
    pub fn next_id(&self) -> (r: u32)
        ensures
            r == self.counter(),
    {
        self.next_id
    }

    /// Stores `kitty` under (`owner`, `id`), replacing any kitty held there.
    /// The caller makes sure that the slot is free where that matters.
    pub fn insert(&mut self, owner: u64, id: u32, kitty: Kitty)
        requires
            old(self).wf(),
        ensures
            final(self).wf(),
            final(self).kitties() == old(self).kitties().insert((owner, id), kitty),
            final(self).counter() == old(self).counter(),
    {
        let ghost k = (owner, id);
        let ghost pre = self.map@;
        let ghost pre_entries = self.entries@;
        let ghost at: int;
        match self.find(owner, id) {
            Some(i) => {
                self.entries.set(i, (owner, id, kitty));
                proof {
                    at = i as int;
                }
            },
            None => {
                self.entries.push((owner, id, kitty));
                proof {
                    at = pre_entries.len() as int;
                }
            },
        }
        self.map = Ghost(pre.insert(k, kitty));
        assert(key_of(self.entries@[at]) == k);
        assert forall|k2: (u64, u32)| #[trigger] self.map@.contains_key(k2) implies exists|i: int|
            0 <= i < self.entries@.len() && key_of(#[trigger] self.entries@[i]) == k2 by {
            if k2 != k {
                assert(pre.contains_key(k2));
                let j = choose|j: int| 0 <= j < pre_entries.len() && key_of(pre_entries[j]) == k2;
                assert(self.entries@[j] == pre_entries[j]);
            }
        }
    }

    /// Sets the global counter to `value`.
    pub fn advance_counter(&mut self, value: u32)
        requires
            old(self).wf(),
        ensures
            final(self).wf(),
            final(self).kitties() == old(self).kitties(),
            final(self).counter() == value,
    {
        let ghost pre = *self;
        self.next_id = value;
        assert(self.entries@ == pre.entries@ && self.map@ == pre.map@);
    }
}

} // verus!
