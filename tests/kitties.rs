use kitties::{find_gender, generate_dna, mix_dna, Error, Event, Gender, Kitty, Module, Registry};

const ALICE: u64 = 1;
const BOB: u64 = 2;

fn male_code() -> [u8; 16] {
    let mut c = [0u8; 16];
    for i in 0..16 {
        c[i] = (2 * i) as u8;
    }
    c
}

fn female_code() -> [u8; 16] {
    let mut c = [0u8; 16];
    for i in 0..16 {
        c[i] = (2 * i + 1) as u8;
    }
    c
}

fn payload(seed: &[u8; 32], sender: u64, index: Option<u32>) -> Vec<u8> {
    let mut v = seed.to_vec();
    v.extend_from_slice(&sender.to_le_bytes());
    match index {
        None => v.push(0),
        Some(i) => {
            v.push(1);
            v.extend_from_slice(&i.to_le_bytes());
        }
    }
    v
}

#[test]
fn gender_follows_parity() {
    assert_eq!(find_gender(0), Gender::Male);
    assert_eq!(find_gender(1), Gender::Female);
    assert_eq!(find_gender(254), Gender::Male);
    assert_eq!(find_gender(255), Gender::Female);
}

#[test]
fn mix_takes_even_bytes_from_first_parent() {
    let a = male_code();
    let b = female_code();
    let expected: [u8; 16] = [0, 3, 4, 7, 8, 11, 12, 15, 16, 19, 20, 23, 24, 27, 28, 31];
    assert_eq!(mix_dna(&a, &b), expected);
    let swapped: [u8; 16] = [1, 2, 5, 6, 9, 10, 13, 14, 17, 18, 21, 22, 25, 26, 29, 30];
    assert_eq!(mix_dna(&b, &a), swapped);
}

#[test]
fn dna_is_blake2_of_encoded_payload() {
    let seed = [7u8; 32];
    let dna = generate_dna(&seed, ALICE, Some(3));
    assert_eq!(dna, sp_io::hashing::blake2_128(&payload(&seed, ALICE, Some(3))));
    assert_ne!(dna, generate_dna(&seed, ALICE, None));
    assert_ne!(dna, generate_dna(&seed, BOB, Some(3)));
    assert_ne!(&dna[..], &seed[..16]);
}

#[test]
fn blake2_128_of_empty_input() {
    let expected: [u8; 16] = [
        0xca, 0xe6, 0x69, 0x41, 0xd9, 0xef, 0xbd, 0x40, 0x4e, 0x4d, 0x88, 0x75, 0x8e, 0xa6, 0x76, 0x70,
    ];
    assert_eq!(sp_io::hashing::blake2_128(&[]), expected);
}

#[test]
fn create_twice_gives_ids_zero_and_one() {
    let mut m = Module::new();
    assert_eq!(m.next_kitty_id(), 0);
    assert_eq!(m.create(ALICE, &[1u8; 32], Some(0)), Ok(()));
    assert_eq!(m.next_kitty_id(), 1);
    assert_eq!(m.create(ALICE, &[2u8; 32], Some(1)), Ok(()));
    assert_eq!(m.next_kitty_id(), 2);
    let k0 = m.kitties(ALICE, 0).unwrap();
    let k1 = m.kitties(ALICE, 1).unwrap();
    assert_eq!(k0.0, generate_dna(&[1u8; 32], ALICE, Some(0)));
    assert_eq!(k1.0, generate_dna(&[2u8; 32], ALICE, Some(1)));
    assert!(m.kitties(BOB, 0).is_none());
    let events = m.events();
    assert_eq!(events.len(), 2);
    assert!(matches!(events[0], Event::KittyCreated(ALICE, 0, k) if k == k0));
    assert!(matches!(events[1], Event::KittyCreated(ALICE, 1, k) if k == k1));
}

#[test]
fn created_kitty_sex_matches_code() {
    let mut m = Module::new();
    for i in 0..8u32 {
        assert_eq!(m.create(ALICE, &[i as u8; 32], Some(i)), Ok(()));
        let k = m.kitties(ALICE, i).unwrap();
        assert_eq!(k.1, find_gender(k.0[0]));
    }
}

#[test]
fn create_with_dna_stores_code_and_sex() {
    let mut m = Module::new();
    assert_eq!(m.create_with_dna(ALICE, female_code()), Ok(()));
    assert_eq!(m.kitties(ALICE, 0), Some(Kitty(female_code(), Gender::Female)));
    assert_eq!(m.create_with_dna(BOB, male_code()), Ok(()));
    assert_eq!(m.kitties(BOB, 1), Some(Kitty(male_code(), Gender::Male)));
    assert!(m.kitties(BOB, 0).is_none());
}

#[test]
fn counter_is_global_across_owners() {
    let mut m = Module::new();
    assert_eq!(m.create(ALICE, &[0u8; 32], Some(0)), Ok(()));
    assert_eq!(m.create(BOB, &[0u8; 32], Some(1)), Ok(()));
    assert!(m.kitties(ALICE, 0).is_some());
    assert!(m.kitties(BOB, 1).is_some());
    assert!(m.kitties(BOB, 0).is_none());
    assert_eq!(m.next_kitty_id(), 2);
}

#[test]
fn create_on_taken_slot_fails_with_id_overflow() {
    let mut r = Registry::new();
    r.insert(ALICE, 0, Kitty(male_code(), Gender::Male));
    let mut m = Module::from_registry(r);
    assert_eq!(m.create(ALICE, &[5u8; 32], Some(0)), Err(Error::KittiesIdOverflow));
    assert_eq!(m.next_kitty_id(), 0);
    assert_eq!(m.kitties(ALICE, 0), Some(Kitty(male_code(), Gender::Male)));
    assert_eq!(m.events().len(), 1);
    assert!(matches!(m.events()[0], Event::CannotCreate(ALICE, 0)));
    assert_eq!(m.create(ALICE, &[6u8; 32], Some(1)), Err(Error::KittiesIdOverflow));
    assert_eq!(m.next_kitty_id(), 0);
    assert_eq!(m.create(BOB, &[5u8; 32], Some(0)), Ok(()));
    assert_eq!(m.next_kitty_id(), 1);
}

#[test]
fn breed_interleaves_parent_codes() {
    let mut m = Module::new();
    m.create_with_dna(ALICE, male_code()).unwrap();
    m.create_with_dna(ALICE, female_code()).unwrap();
    assert_eq!(m.breed(ALICE, 0, 1), Ok(()));
    let expected: [u8; 16] = [0, 3, 4, 7, 8, 11, 12, 15, 16, 19, 20, 23, 24, 27, 28, 31];
    let child = m.kitties(ALICE, 2).unwrap();
    assert_eq!(child, Kitty(expected, Gender::Male));
    assert_eq!(m.next_kitty_id(), 3);
    assert!(matches!(m.events()[2], Event::KittyBred(ALICE, 2, k) if k == child));
}

#[test]
fn breed_depends_on_parent_order() {
    let mut m = Module::new();
    m.create_with_dna(ALICE, male_code()).unwrap();
    m.create_with_dna(ALICE, female_code()).unwrap();
    assert_eq!(m.breed(ALICE, 1, 0), Ok(()));
    let expected: [u8; 16] = [1, 2, 5, 6, 9, 10, 13, 14, 17, 18, 21, 22, 25, 26, 29, 30];
    assert_eq!(m.kitties(ALICE, 2), Some(Kitty(expected, Gender::Female)));
}

#[test]
fn breed_same_sex_fails_and_changes_nothing() {
    let mut m = Module::new();
    let mut other = male_code();
    other[5] = 99;
    m.create_with_dna(ALICE, male_code()).unwrap();
    m.create_with_dna(ALICE, other).unwrap();
    assert_eq!(m.breed(ALICE, 0, 1), Err(Error::SameSexKitties));
    assert_eq!(m.next_kitty_id(), 2);
    assert!(m.kitties(ALICE, 2).is_none());
    assert_eq!(m.events().len(), 2);
    assert_eq!(m.breed(ALICE, 0, 1), Err(Error::SameSexKitties));
    assert_eq!(m.next_kitty_id(), 2);
}

#[test]
fn breed_with_itself_fails_same_sex() {
    let mut m = Module::new();
    m.create_with_dna(ALICE, female_code()).unwrap();
    assert_eq!(m.breed(ALICE, 0, 0), Err(Error::SameSexKitties));
    assert_eq!(m.next_kitty_id(), 1);
}

#[test]
fn breed_with_unknown_id_fails_invalid_id() {
    let mut m = Module::new();
    m.create_with_dna(ALICE, male_code()).unwrap();
    m.create_with_dna(ALICE, female_code()).unwrap();
    assert_eq!(m.breed(ALICE, 0, 7), Err(Error::InvalidKittyId));
    assert_eq!(m.breed(ALICE, 7, 1), Err(Error::InvalidKittyId));
    assert_eq!(m.breed(BOB, 0, 1), Err(Error::InvalidKittyId));
    assert_eq!(m.breed(BOB, 0, 1), Err(Error::InvalidKittyId));
    assert_eq!(m.next_kitty_id(), 2);
    assert!(m.kitties(ALICE, 2).is_none());
    assert_eq!(m.events().len(), 2);
}

#[test]
fn counter_moves_by_one_per_success() {
    let mut m = Module::new();
    m.create_with_dna(ALICE, male_code()).unwrap();
    assert_eq!(m.next_kitty_id(), 1);
    m.create_with_dna(ALICE, female_code()).unwrap();
    assert_eq!(m.next_kitty_id(), 2);
    m.breed(ALICE, 0, 1).unwrap();
    assert_eq!(m.next_kitty_id(), 3);
    assert!(m.breed(ALICE, 0, 2).is_err());
    assert_eq!(m.next_kitty_id(), 3);
    m.breed(ALICE, 2, 1).unwrap();
    assert_eq!(m.next_kitty_id(), 4);
}

#[test]
fn counter_wraps_past_u32_max() {
    let mut r = Registry::new();
    r.advance_counter(u32::MAX);
    let mut m = Module::from_registry(r);
    assert_eq!(m.create_with_dna(ALICE, male_code()), Ok(()));
    assert_eq!(m.next_kitty_id(), 0);
    assert!(m.kitties(ALICE, u32::MAX).is_some());
}

#[test]
fn registry_insert_overwrites() {
    let mut r = Registry::new();
    assert_eq!(r.get(ALICE, 3), None);
    r.insert(ALICE, 3, Kitty(male_code(), Gender::Male));
    r.insert(ALICE, 3, Kitty(female_code(), Gender::Female));
    assert_eq!(r.get(ALICE, 3), Some(Kitty(female_code(), Gender::Female)));
    assert_eq!(r.get(BOB, 3), None);
    assert_eq!(r.next_id(), 0);
    r.advance_counter(9);
    assert_eq!(r.next_id(), 9);
}
