use vstd::prelude::*;
use crate::dna::{dna_of, generate_dna};
use crate::kitty::{find_gender, gender_of, Gender, Kitty};
use crate::registry::{lookup, Registry};

verus! {

broadcast use vstd::array::group_array_axioms;

/// What the module reports to the outside world.
#[derive(Clone, Copy, Debug)]
pub enum Event {
    /// A kitty was created: owner, kitty id, kitty.
    KittyCreated(u64, u32, Kitty),
    /// A kitty could not be created: owner, the id that was taken.
    CannotCreate(u64, u32),
    /// A kitty was bred: owner, kitty id, kitty.
    KittyBred(u64, u32, Kitty),
    /// A kitty could not be bred: owner, kitty id.
    CannotBreed(u64, u32),
}

/// Why a call failed.
#[derive(Clone, Copy, Debug, PartialEq, Eq, Structural)]
pub enum Error {
    /// The slot that the counter points at is already taken.
    KittiesIdOverflow,
    /// Both parents have the same sex.
    SameSexKitties,
    /// A parent id does not name a kitty of the caller.
    InvalidKittyId,
}

/// The abstract state of the module: the kitties by (owner, id), the counter
/// and the events emitted so far.
pub struct State {
    pub kitties: Map<(u64, u32), Kitty>,
    pub next_id: u32,
    pub events: Seq<Event>,
}

impl State {
    /// Every stored kitty has the sex that its code gives.
    pub open spec fn wf(self) -> bool {
        forall|k: (u64, u32)| #[trigger] self.kitties.contains_key(k) ==> self.kitties[k].wf()
    }
}

/// The counter after `id` has been used: one more, wrapping past `u32::MAX`.
pub open spec fn after(id: u32) -> u32 {
    if id == u32::MAX {
        0
    } else {
        (id + 1) as u32
    }
}

/// The kitty that a genetic code makes.
pub open spec fn kitty_of(dna: [u8; 16]) -> Kitty {
    Kitty(dna, gender_of(dna[0]))
}

/// Byte `i` of the child code: the first parent's at even positions, the
/// second's at odd ones.
pub open spec fn mixed(a: Seq<u8>, b: Seq<u8>) -> Seq<u8> {
    Seq::new(16, |i: int| if i % 2 == 0 { a[i] } else { b[i] })
}

/// The 16-byte code whose bytes are `mixed(a@, b@)`.
pub open spec fn mix_of(a: [u8; 16], b: [u8; 16]) -> [u8; 16] {
    choose|c: [u8; 16]| c@ == mixed(a@, b@)
}

/// The outcome of `create` on state `s`, for the caller `sender` and the code `dna`.
pub open spec fn spec_create(s: State, sender: u64, dna: [u8; 16]) -> (State, Result<(), Error>) {
    let id = s.next_id;
    if s.kitties.contains_key((sender, id)) {
        (
            State { events: s.events.push(Event::CannotCreate(sender, id)), ..s },
            Err(Error::KittiesIdOverflow),
        )
    } else {
        let k = kitty_of(dna);
        (
            State {
                kitties: s.kitties.insert((sender, id), k),
                next_id: after(id),
                events: s.events.push(Event::KittyCreated(sender, id, k)),
            },
            Ok(()),
        )
    }
}

/// The outcome of `breed` on state `s`, for the caller `sender` and the parents
/// `id1` and `id2`.
pub open spec fn spec_breed(s: State, sender: u64, id1: u32, id2: u32) -> (State, Result<(), Error>) {
    if !s.kitties.contains_key((sender, id1)) || !s.kitties.contains_key((sender, id2)) {
        (s, Err(Error::InvalidKittyId))
    } else {
        let k1 = s.kitties[(sender, id1)];
        let k2 = s.kitties[(sender, id2)];
        if k1.1 == k2.1 {
            (s, Err(Error::SameSexKitties))
        } else {
            let id = s.next_id;
            let child = kitty_of(mix_of(k1.0, k2.0));
            (
                State {
                    kitties: s.kitties.insert((sender, id), child),
                    next_id: after(id),
                    events: s.events.push(Event::KittyBred(sender, id, child)),
                },
                Ok(()),
            )
        }
    }
}

/// The kitties module: the registry of kitties and the events it has emitted.
pub struct Module {
    kitties: Registry,
    events: Vec<Event>,
}

impl View for Module {
    type V = State;

    closed spec fn view(&self) -> State {
        State { kitties: self.kitties.kitties(), next_id: self.kitties.counter(), events: self.events@ }
    }
}

impl Module {
    /// The registry is well formed and every kitty in it has the sex that its
    /// code gives.
    pub closed spec fn wf(&self) -> bool {
        self.kitties.wf() && self@.wf()
    }

    /// A module with no kitties, its counter at 0 and no events.
    pub fn new() -> (r: Module)
        ensures
            r.wf(),
            r@.kitties == Map::<(u64, u32), Kitty>::empty(),
            r@.next_id == 0,
            r@.events == Seq::<Event>::empty(),
    {
        Module { kitties: Registry::new(), events: Vec::new() }
    }

    /// A module over an existing registry, with no events yet.
    pub fn from_registry(kitties: Registry) -> (r: Module)
        requires
            kitties.wf(),
            forall|k: (u64, u32)| #[trigger]
                kitties.kitties().contains_key(k) ==> kitties.kitties()[k].wf(),
        ensures
            r.wf(),
            r@.kitties == kitties.kitties(),
            r@.next_id == kitties.counter(),
            r@.events == Seq::<Event>::empty(),
    {
        Module { kitties, events: Vec::new() }
    }

    /// The kitty that `owner` holds under `kitty_id`.
    pub fn kitties(&self, owner: u64, kitty_id: u32) -> (r: Option<Kitty>)
        requires
            self.wf(),
        ensures
            r == lookup(self@.kitties, (owner, kitty_id)),
    {
        self.kitties.get(owner, kitty_id)
    }

    /// The id that the next kitty will get.
    pub fn next_kitty_id(&self) -> (r: u32)
        ensures
            r == self@.next_id,
    {
        self.kitties.next_id()
    }

    /// The events emitted so far, oldest first.
    pub fn events(&self) -> (r: &Vec<Event>)
        ensures
            r@ == self@.events,
    {
        &self.events
    }

    /// Stores `kitty` under the counter's id for `sender`, moves the counter on
    /// and returns the id used.
    fn store(&mut self, sender: u64, kitty: Kitty) -> (id: u32)
        requires
            old(self).wf(),
            kitty.wf(),
        ensures
            final(self).wf(),
            id == old(self)@.next_id,
            final(self)@.kitties == old(self)@.kitties.insert((sender, id), kitty),
            final(self)@.next_id == after(id),
            final(self)@.events == old(self)@.events,
    {
        let id = self.kitties.next_id();
        self.kitties.insert(sender, id, kitty);
        let next = if id == u32::MAX {
            0
        } else {
            id + 1
        };
        self.kitties.advance_counter(next);
        assert forall|k: (u64, u32)| #[trigger] self@.kitties.contains_key(k) implies self@.kitties[k].wf() by {
            if k != (sender, id) {
                assert(old(self)@.kitties.contains_key(k));
            }
        }
        id
    }

    /// Creates a kitty for `sender` from the genetic code `dna`, under the id that
    /// the counter gives, unless `sender` already holds a kitty there.
    pub fn create_with_dna(&mut self, sender: u64, dna: [u8; 16]) -> (r: Result<(), Error>)
        requires
            old(self).wf(),
        ensures
            final(self).wf(),
            (final(self)@, r) == spec_create(old(self)@, sender, dna),
    {
        let kitty_id = self.kitties.next_id();
        if self.kitties.get(sender, kitty_id).is_some() {
            self.events.push(Event::CannotCreate(sender, kitty_id));
            return Err(Error::KittiesIdOverflow);
        }
        let gender = find_gender(dna[0]);
        let kitty = Kitty(dna, gender);
        self.store(sender, kitty);
        self.events.push(Event::KittyCreated(sender, kitty_id, kitty));
        Ok(())
    }

    /// Creates a kitty for `sender` whose code is drawn from `seed` (the output
    /// of the randomness source), the caller and the index of the call within
    /// its block (`None` outside of a call).
    pub fn create(&mut self, sender: u64, seed: &[u8; 32], index: Option<u32>) -> (r: Result<(), Error>)
        requires
            old(self).wf(),
        ensures
            final(self).wf(),
            (final(self)@, r) == spec_create(old(self)@, sender, dna_of(seed@, sender, index)),
    {
        let dna = generate_dna(seed, sender, index);
        self.create_with_dna(sender, dna)
    }

    /// Breeds the kitties `kitty_id_1` and `kitty_id_2` of `sender` into a new
    /// one, which takes its code's even bytes from the first parent and its odd
    /// bytes from the second. Unlike `create`, it does not check the child's
    /// slot first: a kitty already held there is replaced.
    pub fn breed(&mut self, sender: u64, kitty_id_1: u32, kitty_id_2: u32) -> (r: Result<(), Error>)
        requires
            old(self).wf(),
        ensures
            final(self).wf(),
            (final(self)@, r) == spec_breed(old(self)@, sender, kitty_id_1, kitty_id_2),
    {
        let kitty1 = match self.kitties.get(sender, kitty_id_1) {
            Some(k) => k,
            None => return Err(Error::InvalidKittyId),
        };
        let kitty2 = match self.kitties.get(sender, kitty_id_2) {
            Some(k) => k,
            None => return Err(Error::InvalidKittyId),
        };
        if kitty1.1 == kitty2.1 {
            return Err(Error::SameSexKitties);
        }
        let dna3 = mix_dna(&kitty1.0, &kitty2.0);
        proof {
            let c = mix_of(kitty1.0, kitty2.0);
            assert(c@ == mixed(kitty1.0@, kitty2.0@));
            assert(c == dna3);
        }
        let gender = find_gender(dna3[0]);
        let new_kitty = Kitty(dna3, gender);
        let kitty_id = self.store(sender, new_kitty);
        self.events.push(Event::KittyBred(sender, kitty_id, new_kitty));
        Ok(())
    }
}

/// Interleaves two genetic codes: even bytes from `a`, odd bytes from `b`.
pub fn mix_dna(a: &[u8; 16], b: &[u8; 16]) -> (r: [u8; 16])
    ensures
        r@ == mixed(a@, b@),
{
    let mut dna3: [u8; 16] = [0; 16];
    let mut i: usize = 0;
    while i < 16
        invariant
            i <= 16,
            forall|j: int| 0 <= j < i ==> dna3[j] == if j % 2 == 0 { a[j] } else { b[j] },
        decreases 16 - i,
    {
        dna3[i] = if i % 2 == 0 { a[i] } else { b[i] };
        i = i + 1;
    }
    assert(dna3@ =~= mixed(a@, b@));
    dna3
}

} // verus!
