//! One turn's dice state: the last two die faces, how many times the player
//! has rolled this turn, and the pip sum accumulated across re-rolls.

use vstd::prelude::*;

verus! {

/// A dice roll event.  `cumulative_sum` drives movement and the utility
/// rent multiplier; `num_rolls` counts consecutive doubles.
#[derive(Debug, Clone, Copy)]
pub struct Dice {
    pub roll: (u32, u32),
    pub num_rolls: u32,
    pub cumulative_sum: u32,
}

impl Dice {
    pub fn new(die1: u32, die2: u32) -> (r: Self)
        requires
            die1 + die2 <= u32::MAX,
        ensures
            r.roll == (die1, die2),
            r.num_rolls == 1,
            r.cumulative_sum == die1 + die2,
    {
        Self { roll: (die1, die2), num_rolls: 1, cumulative_sum: die1 + die2 }
    }

    pub fn total(&self) -> (r: u32)
        requires
            self.roll.0 + self.roll.1 <= u32::MAX,
        ensures
            r == self.roll.0 + self.roll.1,
    {
        self.roll.0 + self.roll.1
    }

    pub fn cumulative_sum(&self) -> (r: u32)
        ensures
            r == self.cumulative_sum,
    {
        self.cumulative_sum
    }

    pub fn roll(&self) -> (r: (u32, u32))
        ensures
            r == self.roll,
    {
        self.roll
    }

    /// Check if the roll is a double: both dice show the same face.
    pub fn is_double(&self) -> (r: bool)
        ensures
            r == (self.roll.0 == self.roll.1),
    {
        self.roll.0 == self.roll.1
    }

    /// This dice follows the roll of a dice passed in as a parameter: the
    /// face values are replaced, the roll counter steps, and the pip sum
    /// accumulates.
    pub fn reroll(&mut self, dice: Dice)
        requires
            old(self).cumulative_sum + dice.roll.0 + dice.roll.1 <= u32::MAX,
            old(self).num_rolls < u32::MAX,
        ensures
            *final(self) == (Dice {
                roll: dice.roll,
                num_rolls: (old(self).num_rolls + 1) as u32,
                cumulative_sum: (old(self).cumulative_sum + dice.roll.0 + dice.roll.1) as u32,
            }),
    {
        self.cumulative_sum = self.cumulative_sum + dice.roll.0 + dice.roll.1;
        self.roll = dice.roll;
        self.num_rolls = self.num_rolls + 1;
    }
}

} // verus!
