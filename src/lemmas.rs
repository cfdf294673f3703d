use vstd::prelude::*;
use vstd::array::spec_array_update;
use crate::kitty::gender_of;
use crate::pallet::{mix_of, mixed, spec_breed, spec_create, Error, State};

verus! {

broadcast use vstd::array::group_array_axioms;

/// The code that `mix_of` names has exactly the interleaved bytes.
pub proof fn lemma_mix_of(a: [u8; 16], b: [u8; 16])
    ensures
        mix_of(a, b)@ == mixed(a@, b@),
{
    let c1 = spec_array_update(a, 1, b[1]);
    let c3 = spec_array_update(c1, 3, b[3]);
    let c5 = spec_array_update(c3, 5, b[5]);
    let c7 = spec_array_update(c5, 7, b[7]);
    let c9 = spec_array_update(c7, 9, b[9]);
    let c11 = spec_array_update(c9, 11, b[11]);
    let c13 = spec_array_update(c11, 13, b[13]);
    let c15 = spec_array_update(c13, 15, b[15]);
    assert(c15@ =~= mixed(a@, b@));
}

/// A kitty that `create` stores holds the given code and the sex that the
/// code's first byte gives.
pub proof fn lemma_create_sex(s: State, sender: u64, dna: [u8; 16])
    requires
        spec_create(s, sender, dna).1 is Ok,
    ensures
        spec_create(s, sender, dna).0.kitties.contains_key((sender, s.next_id)),
        spec_create(s, sender, dna).0.kitties[(sender, s.next_id)].0 == dna,
        spec_create(s, sender, dna).0.kitties[(sender, s.next_id)].1 == gender_of(dna[0]),
{
}

/// When breeding succeeds, the child, stored under the old counter value, has
/// at each even position the first parent's byte and at each odd position the
/// second parent's.
pub proof fn lemma_breed_mixes(s: State, sender: u64, id1: u32, id2: u32)
    requires
        spec_breed(s, sender, id1, id2).1 is Ok,
    ensures
        spec_breed(s, sender, id1, id2).0.kitties.contains_key((sender, s.next_id)),
        forall|i: int|
            0 <= i < 16 ==> #[trigger] spec_breed(s, sender, id1, id2).0.kitties[(
                sender,
                s.next_id,
            )].0[i] == if i % 2 == 0 {
                s.kitties[(sender, id1)].0[i]
            } else {
                s.kitties[(sender, id2)].0[i]
            },
{
    lemma_mix_of(s.kitties[(sender, id1)].0, s.kitties[(sender, id2)].0);
}

/// Breeding two kitties of the caller that share a sex fails with
/// `SameSexKitties` and leaves the state as it was.
pub proof fn lemma_same_sex_fails(s: State, sender: u64, id1: u32, id2: u32)
    requires
        s.kitties.contains_key((sender, id1)),
        s.kitties.contains_key((sender, id2)),
        s.kitties[(sender, id1)].1 == s.kitties[(sender, id2)].1,
    ensures
        spec_breed(s, sender, id1, id2) == (s, Err::<(), Error>(Error::SameSexKitties)),
{
}

/// Breeding with an id under which the caller holds no kitty fails with
/// `InvalidKittyId` and leaves the state as it was.
pub proof fn lemma_invalid_id_fails(s: State, sender: u64, id1: u32, id2: u32)
    requires
        !s.kitties.contains_key((sender, id1)) || !s.kitties.contains_key((sender, id2)),
    ensures
        spec_breed(s, sender, id1, id2) == (s, Err::<(), Error>(Error::InvalidKittyId)),
{
}

/// `create` moves the counter on by exactly one when it succeeds below
/// `u32::MAX`, and leaves it alone when it fails.
pub proof fn lemma_create_counter(s: State, sender: u64, dna: [u8; 16])
    ensures
        spec_create(s, sender, dna).1 is Ok && s.next_id < u32::MAX ==> spec_create(s, sender, dna).0.next_id
            == s.next_id + 1,
        spec_create(s, sender, dna).1 is Err ==> spec_create(s, sender, dna).0.next_id == s.next_id,
{
}

/// `breed` moves the counter on by exactly one when it succeeds below
/// `u32::MAX`, and leaves it alone when it fails.
pub proof fn lemma_breed_counter(s: State, sender: u64, id1: u32, id2: u32)
    ensures
        spec_breed(s, sender, id1, id2).1 is Ok && s.next_id < u32::MAX ==> spec_breed(
            s,
            sender,
            id1,
            id2,
        ).0.next_id == s.next_id + 1,
        spec_breed(s, sender, id1, id2).1 is Err ==> spec_breed(s, sender, id1, id2).0.next_id
            == s.next_id,
{
}

/// A failed `create` leaves the kitties and the counter as they were, so the
/// same call on the same kitties and counter fails again with the same error.
pub proof fn lemma_create_failure_repeats(s: State, t: State, sender: u64, dna: [u8; 16])
    requires
        spec_create(s, sender, dna).1 is Err,
        t.kitties == s.kitties,
        t.next_id == s.next_id,
    ensures
        spec_create(s, sender, dna).0.kitties == s.kitties,
        spec_create(s, sender, dna).0.next_id == s.next_id,
        spec_create(t, sender, dna).1 == spec_create(s, sender, dna).1,
{
}

/// A failed `breed` leaves the state as it was, so the same call on the same
/// kitties and counter fails again with the same error.
pub proof fn lemma_breed_failure_repeats(s: State, t: State, sender: u64, id1: u32, id2: u32)
    requires
        spec_breed(s, sender, id1, id2).1 is Err,
        t.kitties == s.kitties,
        t.next_id == s.next_id,
    ensures
        spec_breed(s, sender, id1, id2).0 == s,
        spec_breed(t, sender, id1, id2).1 == spec_breed(s, sender, id1, id2).1,
{
}

} // verus!
