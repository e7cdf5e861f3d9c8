//! The partner and the dice that decide what gets done next.
use rand::Rng;
use vstd::prelude::*;
use crate::miner::agent::Location;

verus! {

/// The chores around the house.
#[derive(Copy, Clone, Debug, PartialEq, Eq, Structural)]
pub enum PartnerChore {
    Mopping,
    Washing,
    BedMaking,
}

/// What the partner is busy with.
#[derive(Copy, Clone, Debug, PartialEq, Eq, Structural)]
pub enum PartnerState {
    DoHouseWork,
    VisitBathroom,
}

/// Something the partner has to say about what just happened.
#[derive(Copy, Clone, Debug, PartialEq, Eq, Structural)]
pub enum PartnerNote {
    /// Mopped the floor.
    MoppedFloor,
    /// Made the bed.
    MadeBed,
    /// Washed the dishes.
    WashedDishes,
    /// Set out for the bathroom.
    WalkingToBathroom,
    /// Used the bathroom.
    Relieved,
    /// Left the bathroom.
    LeavingBathroom,
}

/// The partner, with what has been decided for the next update.
pub struct Partner {
    /// The partner's name.
    pub name: String,
    /// Where the partner is.
    pub location: Location,
    /// Whether nature calls at the next update.
    pub urge: bool,
    /// The chore to do at the next update, unless nature calls.
    pub chore: PartnerChore,
    /// What the partner has said so far, oldest first.
    pub journal: Vec<PartnerNote>,
}

/// A number drawn from the thread's random number generator by
/// `rand::Rng::gen_range` on the range from 0 up to, not including,
/// `bound`. Nothing is promised of the draw but that it lies in that range.
/// The range must not be empty, or the generator panics.
#[verifier::external_body]
fn random_below(bound: i32) -> (drawn: i32)
    requires
        bound > 0,
    ensures
        0 <= drawn < bound,
{
    rand::thread_rng().gen_range(0..bound)
}

impl PartnerChore {
    /// The chore with the number `index`.
    pub fn from_index(index: i32) -> (chore: Self)
        requires
            0 <= index <= 2,
        ensures
            index == 0 ==> chore == PartnerChore::Mopping,
            index == 1 ==> chore == PartnerChore::Washing,
            index == 2 ==> chore == PartnerChore::BedMaking,
    {
        if index == 0 {
            PartnerChore::Mopping
        } else if index == 1 {
            PartnerChore::Washing
        } else {
            PartnerChore::BedMaking
        }
    }

    /// A chore picked at random. The draw is one of two numbers, so the bed
    /// is never made.
    pub fn random() -> (chore: Self)
        ensures
            chore == PartnerChore::Mopping || chore == PartnerChore::Washing,
    {
        Self::from_index(random_below(2))
    }

    /// What the partner says after doing the chore.
    pub fn note(self) -> (note: PartnerNote)
        ensures
            note == chore_note(self),
    {
        match self {
            PartnerChore::Mopping => PartnerNote::MoppedFloor,
            PartnerChore::BedMaking => PartnerNote::MadeBed,
            PartnerChore::Washing => PartnerNote::WashedDishes,
        }
    }
}

/// What the partner says after doing `chore`.
pub open spec fn chore_note(chore: PartnerChore) -> PartnerNote {
    match chore {
        PartnerChore::Mopping => PartnerNote::MoppedFloor,
        PartnerChore::BedMaking => PartnerNote::MadeBed,
        PartnerChore::Washing => PartnerNote::WashedDishes,
    }
}

impl Partner {
    /// A partner called `name`, at the shack, with nothing said and nothing
    /// urgent.
    pub fn new(name: String) -> (partner: Self)
        ensures
            partner.name@ == name@,
            partner.location == Location::Shack,
            !partner.urge,
            partner.chore == PartnerChore::Mopping,
            partner.journal@ == Seq::<PartnerNote>::empty(),
    {
        Partner {
            name,
            location: Location::Shack,
            urge: false,
            chore: PartnerChore::Mopping,
            journal: Vec::new(),
        }
    }

    /// Appends `note` to what the partner has said.
    pub fn log(&mut self, note: PartnerNote)
        ensures
            final(self).journal@ == old(self).journal@.push(note),
            final(self).name@ == old(self).name@,
            final(self).location == old(self).location,
            final(self).urge == old(self).urge,
            final(self).chore == old(self).chore,
    {
        self.journal.push(note);
    }

    /// Decides the next update: nature calls if `urge` says so, and a chore
    /// is picked at random for the case that it does not.
    pub fn plan(&mut self, urge: bool)
        ensures
            final(self).urge == urge,
            final(self).chore == PartnerChore::Mopping || final(self).chore
                == PartnerChore::Washing,
            final(self).name@ == old(self).name@,
            final(self).location == old(self).location,
            final(self).journal@ == old(self).journal@,
    {
        self.urge = urge;
        self.chore = PartnerChore::random();
    }
}

} // verus!
