//! Mutable game state: the ownership record of one purchasable square
//! ([`Asset`]) and the account of one player ([`Player`]).

use vstd::prelude::*;

verus! {

/// The mutable ownership, building and mortgage state of one purchasable
/// square.  `owner` is the `turn_idx` of the owning player, if any.
pub struct Asset {
    pub owner: Option<usize>,
    pub house_num: u32,
    pub has_hotel: bool,
    pub is_mortgaged: bool,
}

/// One player's account: cash, board position, jail status and flags.
#[derive(PartialEq, Eq, Hash, Debug)]
pub struct Player {
    pub name: String,
    /// The index of the board square the player stands on.
    pub position: usize,
    /// The player's index in the game's player list; assets refer to it.
    pub turn_idx: usize,
    pub cash: u32,
    pub is_in_jail: bool,
    pub num_get_out_of_jail_cards: u32,
    /// True if the player could not pay a bill and must sell or leave.
    pub is_in_trouble: bool,
    /// True if the player has left the game; terminal.
    pub left_game: bool,
}

impl Asset {
    /// Structural invariant: at most four houses, a hotel only on top of
    /// four houses, and an unowned square carries no building or mortgage
    /// state.
    pub open spec fn wf(&self) -> bool {
        &&& self.house_num <= 4
        &&& self.has_hotel ==> self.house_num == 4
        &&& self.owner is None ==> self.house_num == 0 && !self.has_hotel && !self.is_mortgaged
    }

    pub fn new() -> (r: Self)
        ensures
            r.owner is None,
            r.house_num == 0,
            !r.has_hotel,
            !r.is_mortgaged,
            r.wf(),
    {
        Self { owner: None, house_num: 0, has_hotel: false, is_mortgaged: false }
    }

    pub fn is_mortgaged(&self) -> (r: bool)
        ensures
            r == self.is_mortgaged,
    {
        self.is_mortgaged
    }

    pub fn mortgage(&mut self)
        ensures
            *final(self) == (Asset { is_mortgaged: true, ..*old(self) }),
    {
        self.is_mortgaged = true;
    }

    pub fn unmortgage(&mut self)
        ensures
            *final(self) == (Asset { is_mortgaged: false, ..*old(self) }),
    {
        self.is_mortgaged = false;
    }

    pub fn house_num(&self) -> (r: u32)
        ensures
            r == self.house_num,
    {
        self.house_num
    }

    pub fn has_hotel(&self) -> (r: bool)
        ensures
            r == self.has_hotel,
    {
        self.has_hotel
    }

    /// Add one house; fails if the square already carries four.
    pub fn buy_house(&mut self) -> (r: Result<(), String>)
        ensures
            old(self).house_num < 4 ==> r is Ok && *final(self) == (Asset {
                house_num: (old(self).house_num + 1) as u32,
                ..*old(self)
            }),
            old(self).house_num >= 4 ==> r is Err && *final(self) == *old(self),
    {
        match self.house_num < 4 {
            true => {
                self.house_num = self.house_num + 1;
                Ok(())
            },
            false => Err("This street cannot have more houses".to_owned()),
        }
    }

    /// Remove one house; fails if the square has none.
    pub fn sell_house(&mut self) -> (r: Result<(), String>)
        ensures
            old(self).house_num > 0 ==> r is Ok && *final(self) == (Asset {
                house_num: (old(self).house_num - 1) as u32,
                ..*old(self)
            }),
            old(self).house_num == 0 ==> r is Err && *final(self) == *old(self),
    {
        match self.house_num > 0 {
            true => {
                self.house_num = self.house_num - 1;
                Ok(())
            },
            false => Err("This street has no houses".to_owned()),
        }
    }

    /// Put a hotel on the square; fails unless it carries exactly four
    /// houses and no hotel yet.
    pub fn buy_hotel(&mut self) -> (r: Result<(), String>)
        ensures
            !old(self).has_hotel && old(self).house_num == 4 ==> r is Ok && *final(self) == (Asset {
                has_hotel: true,
                ..*old(self)
            }),
            old(self).has_hotel || old(self).house_num != 4 ==> r is Err && *final(self) == *old(
                self,
            ),
    {
        if self.has_hotel() {
            return Err("This street cannot have more hotels".to_owned());
        }
        if self.house_num != 4 {
            return Err("You need 4 houses before you can buy a hotel".to_owned());
        }
        self.has_hotel = true;
        Ok(())
    }

    /// Remove the hotel; always succeeds.  The house count stays as it is,
    /// so the square is treated as at four-house footing afterwards.
    pub fn sell_hotel(&mut self)
        ensures
            *final(self) == (Asset { has_hotel: false, ..*old(self) }),
    {
        self.has_hotel = false;
    }

    /// Calculate if a street has houses or a hotel built on it.
    pub fn has_buildings(&self) -> (r: bool)
        ensures
            r == (self.has_hotel || self.house_num > 0),
    {
        self.has_hotel() || self.house_num() > 0
    }

    /// Return the square to the market: clear the owner together with the
    /// building and mortgage state, so an unowned square is always clean.
    /// No cash is refunded.
    pub fn liquify(&mut self)
        ensures
            *final(self) == (Asset {
                owner: None,
                house_num: 0,
                has_hotel: false,
                is_mortgaged: false,
            }),
            final(self).wf(),
    {
        self.owner = None;
        self.house_num = 0;
        self.has_hotel = false;
        self.is_mortgaged = false;
    }
}

impl Player {
    pub fn new(name: String, idx: usize) -> (r: Self)
        ensures
            r.name == name,
            r.position == 0,
            r.turn_idx == idx,
            r.cash == 1500,
            !r.is_in_jail,
            !r.is_in_trouble,
            !r.left_game,
            r.num_get_out_of_jail_cards == 0,
    {
        Self {
            name,
            position: 0,
            turn_idx: idx,
            cash: 1500,
            is_in_jail: false,
            is_in_trouble: false,
            left_game: false,
            num_get_out_of_jail_cards: 0,
        }
    }

    pub fn name(&self) -> (r: &str)
        ensures
            r@ == self.name@,
    {
        self.name.as_str()
    }

    pub fn cash(&self) -> (r: u32)
        ensures
            r == self.cash,
    {
        self.cash
    }

    pub fn position(&self) -> (r: usize)
        ensures
            r == self.position,
    {
        self.position
    }

    pub fn turn_idx(&self) -> (r: usize)
        ensures
            r == self.turn_idx,
    {
        self.turn_idx
    }

    pub fn is_in_jail(&self) -> (r: bool)
        ensures
            r == self.is_in_jail,
    {
        self.is_in_jail
    }

    pub fn is_in_trouble(&self) -> (r: bool)
        ensures
            r == self.is_in_trouble,
    {
        self.is_in_trouble
    }

    pub fn left_game(&self) -> (r: bool)
        ensures
            r == self.left_game,
    {
        self.left_game
    }

    pub fn num_get_out_of_jail_cards(&self) -> (r: u32)
        ensures
            r == self.num_get_out_of_jail_cards,
    {
        self.num_get_out_of_jail_cards
    }

    pub fn set_in_trouble(&mut self, in_trouble: bool)
        ensures
            *final(self) == (Player { is_in_trouble: in_trouble, ..*old(self) }),
    {
        self.is_in_trouble = in_trouble;
    }

    pub fn leave_game(&mut self)
        ensures
            *final(self) == (Player { left_game: true, ..*old(self) }),
    {
        self.left_game = true;
    }

    /// Move the player `steps` squares forward, wrapping around the board.
    pub fn advance(&mut self, steps: u32, board_size: u32)
        requires
            board_size >= 1,
            old(self).position < board_size,
            steps <= u32::MAX - board_size,
        ensures
            *final(self) == (Player {
                position: (((old(self).position + steps) as int % board_size as int) as usize),
                ..*old(self)
            }),
    {
        let target_square = ((self.position as u32) + steps) % board_size;
        self.position = target_square as usize;
    }

    /// Go to jail: straight to the jail square, no GO credit.
    pub fn go_to_jail(&mut self)
        ensures
            *final(self) == (Player { position: 10, is_in_jail: true, ..*old(self) }),
    {
        self.is_in_jail = true;
        self.position = 10;
    }

    /// Transact in cash: add `amount` to the balance (debit for negative
    /// amounts).  A debit that the balance cannot cover fails and changes
    /// nothing; so does a credit that would overflow the balance.
    pub fn transact_cash(&mut self, amount: i32) -> (r: Result<(), ()>)
        ensures
            0 <= old(self).cash + amount <= u32::MAX ==> r is Ok && *final(self) == (Player {
                cash: (old(self).cash + amount) as u32,
                ..*old(self)
            }),
            !(0 <= old(self).cash + amount <= u32::MAX) ==> r is Err && *final(self) == *old(self),
    {
        if amount < 0 {
            let a: u32 = if amount == i32::MIN {
                0x8000_0000
            } else {
                (0 - amount) as u32
            };
            if self.cash < a {
                return Err(());
            }
            self.cash = self.cash - a;
        } else {
            let a = amount as u32;
            if self.cash > u32::MAX - a {
                return Err(());
            }
            self.cash = self.cash + a;
        }
        Ok(())
    }

    pub fn leave_jail(&mut self)
        ensures
            *final(self) == (Player { is_in_jail: false, ..*old(self) }),
    {
        self.is_in_jail = false;
    }

    /// Pay the fixed $50 fee to leave jail; fails if the balance cannot
    /// cover it, and then changes nothing.
    pub fn bribe_guards(&mut self) -> (r: Result<(), ()>)
        ensures
            old(self).cash >= 50 ==> r is Ok && *final(self) == (Player {
                cash: (old(self).cash - 50) as u32,
                is_in_jail: false,
                ..*old(self)
            }),
            old(self).cash < 50 ==> r is Err && *final(self) == *old(self),
    {
        if self.cash < 50 {
            return Err(());
        }
        self.cash = self.cash - 50;
        self.is_in_jail = false;
        Ok(())
    }

    /// Spend one get-out-of-jail-free card to leave jail; fails if the
    /// player holds none.
    pub fn redeem_jail_free_card(&mut self) -> (r: Result<(), ()>)
        ensures
            old(self).num_get_out_of_jail_cards >= 1 ==> r is Ok && *final(self) == (Player {
                num_get_out_of_jail_cards: (old(self).num_get_out_of_jail_cards - 1) as u32,
                is_in_jail: false,
                ..*old(self)
            }),
            old(self).num_get_out_of_jail_cards == 0 ==> r is Err && *final(self) == *old(self),
    {
        if self.num_get_out_of_jail_cards < 1 {
            return Err(());
        }
        self.num_get_out_of_jail_cards = self.num_get_out_of_jail_cards - 1;
        self.is_in_jail = false;
        Ok(())
    }

    pub fn receive_jail_free_card(&mut self)
        requires
            old(self).num_get_out_of_jail_cards < u32::MAX,
        ensures
            *final(self) == (Player {
                num_get_out_of_jail_cards: (old(self).num_get_out_of_jail_cards + 1) as u32,
                ..*old(self)
            }),
    {
        self.num_get_out_of_jail_cards = self.num_get_out_of_jail_cards + 1;
    }
}

} // verus!
