//! A registry of owned collectibles ("kitties"): each one carries a 128-bit
//! genetic code and a sex derived from it, and is kept under its owner and a
//! local id drawn from one global counter.

pub mod kitty;
pub mod dna;
pub mod registry;
pub mod pallet;
pub mod lemmas;

pub use dna::generate_dna;
pub use kitty::{find_gender, Gender, Kitty};
pub use pallet::{mix_dna, Error, Event, Module};
pub use registry::Registry;
