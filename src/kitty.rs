use vstd::prelude::*;

verus! {

/// The sex of a kitty.
#[derive(Clone, Copy, Debug, PartialEq, Eq, Structural)]
pub enum Gender {
    Male,
    Female,
}

/// A kitty: its 16-byte genetic code and its sex.
#[derive(Clone, Copy, Debug, Eq)]
pub struct Kitty(pub [u8; 16], pub Gender);

/// The sex that a genetic code's first byte stands for: even is male, odd female.
pub open spec fn gender_of(b: u8) -> Gender {
    if b % 2 == 0 {
        Gender::Male
    } else {
        Gender::Female
    }
}

impl Kitty {
    /// A kitty is well formed when its sex is the one its code's first byte gives.
    pub open spec fn wf(&self) -> bool {
        self.1 == gender_of(self.0[0])
    }
}

impl PartialEq for Kitty {
    fn eq(&self, o: &Kitty) -> (r: bool) {
        if self.1 != o.1 {
            return false;
        }
        let mut i: usize = 0;
        while i < 16
            invariant
                i <= 16,
                forall|j: int| 0 <= j < i ==> self.0[j] == o.0[j],
            decreases 16 - i,
        {
            if self.0[i] != o.0[i] {
                return false;
            }
            i = i + 1;
        }
        proof {
            assert(self.0@ =~= o.0@);
        }
        true
    }
}

impl vstd::std_specs::cmp::PartialEqSpecImpl for Kitty {
    open spec fn obeys_eq_spec() -> bool {
        true
    }

    open spec fn eq_spec(&self, o: &Kitty) -> bool {
        self.0@ == o.0@ && self.1 == o.1
    }
}

/// Derives the sex from the first byte of a genetic code.
pub fn find_gender(sex: u8) -> (r: Gender)
    ensures
        r == gender_of(sex),
{
    if sex % 2 == 0 {
        Gender::Male
    } else {
        Gender::Female
    }
}

} // verus!
