use vstd::prelude::*;

verus! {

/// Campaign progress: an ordinal from 1 to 10. The campaign starts at
/// `Level1` and ends after `Level10` has been won.
#[derive(Clone, Copy, Debug, PartialEq, Eq, Structural)]
pub enum Level {
    Level1,
    Level2,
    Level3,
    Level4,
    Level5,
    Level6,
    Level7,
    Level8,
    Level9,
    Level10,
}

/// The last level of the campaign.
pub open spec fn max_level_ordinal() -> int {
    10
}

impl Level {
    /// The ordinal of this level, 1 through 10.
    pub open spec fn ordinal(self) -> int {
        match self {
            Level::Level1 => 1,
            Level::Level2 => 2,
            Level::Level3 => 3,
            Level::Level4 => 4,
            Level::Level5 => 5,
            Level::Level6 => 6,
            Level::Level7 => 7,
            Level::Level8 => 8,
            Level::Level9 => 9,
            Level::Level10 => 10,
        }
    }

    /// The ordinal as a machine integer.
    pub fn number(&self) -> (n: u64)
        ensures
            n == self.ordinal(),
    {
        match self {
            Level::Level1 => 1,
            Level::Level2 => 2,
            Level::Level3 => 3,
            Level::Level4 => 4,
            Level::Level5 => 5,
            Level::Level6 => 6,
            Level::Level7 => 7,
            Level::Level8 => 8,
            Level::Level9 => 9,
            Level::Level10 => 10,
        }
    }
}

/// Result of asking the level tracker to advance: either the campaign moved
/// on to the returned level, or it was already at the last level and is
/// complete.
#[derive(Clone, Copy, Debug, PartialEq, Eq, Structural)]
pub enum LevelOutcome {
    Advanced(Level),
    CampaignComplete,
}

/// Holds the current level and exposes the single, one-directional advance
/// operation. There is no way to decrease the level.
pub struct LevelTracker {
    level: Level,
}

impl LevelTracker {
    /// The level the tracker currently holds.
    pub closed spec fn level(self) -> Level {
        self.level
    }

    /// A fresh tracker starts at `Level1`.
    pub fn new() -> (t: LevelTracker)
        ensures
            t.level() == Level::Level1,
    {
        LevelTracker { level: Level::Level1 }
    }

    /// The current level.
    pub fn current(&self) -> (l: Level)
        ensures
            l == self.level(),
    {
        self.level
    }

    /// Moves the tracker one level forward, or reports the campaign complete
    /// when it already stands at the last level. The level never decreases
    /// and never passes the last level.
    pub fn advance(&mut self) -> (r: LevelOutcome)
        ensures
            old(self).level().ordinal() < max_level_ordinal() ==> {
                &&& final(self).level().ordinal() == old(self).level().ordinal() + 1
                &&& r == LevelOutcome::Advanced(final(self).level())
            },
            old(self).level().ordinal() == max_level_ordinal() ==> {
                &&& final(self).level() == old(self).level()
                &&& r == LevelOutcome::CampaignComplete
            },
            final(self).level().ordinal() >= old(self).level().ordinal(),
            final(self).level().ordinal() <= max_level_ordinal(),
    {
        match self.level {
            Level::Level1 => {
                self.level = Level::Level2;
                LevelOutcome::Advanced(Level::Level2)
            },
            Level::Level2 => {
                self.level = Level::Level3;
                LevelOutcome::Advanced(Level::Level3)
            },
            Level::Level3 => {
                self.level = Level::Level4;
                LevelOutcome::Advanced(Level::Level4)
            },
            Level::Level4 => {
                self.level = Level::Level5;
                LevelOutcome::Advanced(Level::Level5)
            },
            Level::Level5 => {
                self.level = Level::Level6;
                LevelOutcome::Advanced(Level::Level6)
            },
            Level::Level6 => {
                self.level = Level::Level7;
                LevelOutcome::Advanced(Level::Level7)
            },
            Level::Level7 => {
                self.level = Level::Level8;
                LevelOutcome::Advanced(Level::Level8)
            },
            Level::Level8 => {
                self.level = Level::Level9;
                LevelOutcome::Advanced(Level::Level9)
            },
            Level::Level9 => {
                self.level = Level::Level10;
                LevelOutcome::Advanced(Level::Level10)
            },
            Level::Level10 => LevelOutcome::CampaignComplete,
        }
    }
}

} // verus!
