use vstd::prelude::*;

verus! {

/// A detachable magazine: how many rounds it can hold and how many it holds.
#[derive(Debug, Clone, Copy, PartialEq, Eq)]
pub struct Magazine {
    pub capacity: u32,
    pub rounds: u32,
}

impl Magazine {
    /// A magazine that can be put into a gun: it holds at least one round's room and
    /// no more rounds than it has room for.
    pub open spec fn valid(self) -> bool {
        0 < self.capacity && self.rounds <= self.capacity
    }
}

/// A magazine-fed gun, seen as mathematical values.
pub struct GunView {
    pub magazine: Option<Magazine>,
    pub is_cocked: bool,
}

impl GunView {
    /// A magazine with a round in it sits in the gun, and the hammer is cocked.
    pub open spec fn can_fire(self) -> bool {
        &&& self.magazine matches Some(m)
        &&& m.rounds > 0
        &&& self.is_cocked
    }
}

/// A gun fed from a detachable magazine, with a hammer that must be cocked before
/// each shot.
#[derive(Debug, Clone, Copy)]
pub struct Gun {
    magazine: Option<Magazine>,
    is_cocked: bool,
}

impl View for Gun {
    type V = GunView;

    closed spec fn view(&self) -> GunView {
        GunView { magazine: self.magazine, is_cocked: self.is_cocked }
    }
}

impl Gun {
    /// A gun without a magazine, hammer down.
    pub fn new() -> (r: Gun)
        ensures
            r@.magazine is None,
            !r@.is_cocked,
    {
        Gun { magazine: None, is_cocked: false }
    }

    /// Puts `magazine` into the empty magazine well.
    pub fn insert_magazine(&mut self, magazine: Magazine)
        requires
            old(self)@.magazine is None,
            magazine.valid(),
        ensures
            final(self)@ == (GunView { magazine: Some(magazine), is_cocked: old(self)@.is_cocked }),
    {
        self.magazine = Some(magazine);
    }

    /// The magazine in the gun, if any.
    pub fn magazine(&self) -> (r: &Option<Magazine>)
        ensures
            *r == self@.magazine,
    {
        &self.magazine
    }

    /// A mutable handle on the magazine well.
    pub fn magazine_mut(&mut self) -> (r: &mut Option<Magazine>)
        ensures
            *r == old(self)@.magazine,
            final(self)@ == (GunView { magazine: *final(r), is_cocked: old(self)@.is_cocked }),
    {
        &mut self.magazine
    }

    /// Fires one round: the magazine loses a round and the hammer falls.
    pub fn fire(&mut self)
        requires
            old(self)@.can_fire(),
        ensures
            final(self)@ == (GunView {
                magazine: Some(
                    Magazine {
                        capacity: old(self)@.magazine->0.capacity,
                        rounds: (old(self)@.magazine->0.rounds - 1) as u32,
                    },
                ),
                is_cocked: false,
            }),
    {
        let m = self.magazine.unwrap();
        self.magazine = Some(Magazine { capacity: m.capacity, rounds: m.rounds - 1 });
        self.is_cocked = false;
    }

    /// Cocks the hammer.
    pub fn pull_hammer(&mut self)
        ensures
            final(self)@ == (GunView { magazine: old(self)@.magazine, is_cocked: true }),
    {
        self.is_cocked = true;
    }

    /// Whether pulling the trigger would fire a round.
    pub fn can_fire(&self) -> (r: bool)
        ensures
            r == self@.can_fire(),
    {
        match self.magazine {
            Some(m) => m.rounds > 0 && self.is_cocked,
            None => false,
        }
    }
}

} // verus!
