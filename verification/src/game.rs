//! The game itself: the board, the player accounts, the asset arena and the
//! card decks, together with the rent engine and the turn state machine.
//!
//! All mutable state is owned by [`Game`] and every change goes through a
//! method whose contract states the change exactly, over the mathematical
//! view [`GameView`].  The engine is the deterministic, non-interactive
//! core: purchases are auto-accepted, jail release is taken when it can be
//! paid, and re-rolls after doubles are requested from the caller through
//! [`TurnOutcome::RollAgain`].

use vstd::prelude::*;
use crate::card::{Card, CardAction};
use crate::dice::Dice;
use crate::player::{Asset, Player};
use crate::square::{Square, SquareType, StreetDetails};
use crate::deck;

verus! {

/// Number of squares on the board.
pub const BOARD_SIZE: u32 = 40;

/// How many chained card executions one turn may trigger (a movement card
/// can land the player on another card square).  When the bound is
/// exhausted, a movement card still moves the player but the destination
/// square's own effect is not dispatched.
pub const CARD_CHAIN_LIMIT: u32 = 32;

/// The result of feeding one dice roll to the turn engine.
#[derive(Eq, PartialEq, Structural, Debug, Clone, Copy)]
pub enum TurnOutcome {
    /// The turn ran to completion.
    Complete,
    /// The roll was a double (outside jail, fewer than three rolls): the
    /// state is unchanged and the caller must re-roll and call again.
    RollAgain,
}

/// The mathematical view of a [`Game`]: the same data as sequences, over
/// which all contracts are stated.
#[verifier::ext_equal]
pub ghost struct GameView {
    pub board: Seq<Square>,
    pub players: Seq<Player>,
    pub assets: Seq<Asset>,
    pub chance: Seq<Card>,
    pub community: Seq<Card>,
    pub active: int,
}

/// The structure containing all parts of the game.
pub struct Game {
    pub players: Vec<Player>,
    pub board: Vec<Square>,
    /// One ownership record per board square, indexed by board position.
    pub assets: Vec<Asset>,
    pub chance_cards: Vec<Card>,
    pub community_cards: Vec<Card>,
    pub active_player: usize,
}

impl View for Game {
    type V = GameView;

    open spec fn view(&self) -> GameView {
        GameView {
            board: self.board@,
            players: self.players@,
            assets: self.assets@,
            chance: self.chance_cards@,
            community: self.community_cards@,
            active: self.active_player as int,
        }
    }
}

impl GameView {
    /// Well-formedness of the whole game state: fixed board and arena
    /// size, players indexed by their turn index and standing on the
    /// board, well-formed assets owned by existing players, and
    /// well-formed cards in both decks.
    pub open spec fn wf(self) -> bool {
        &&& self.board.len() == 40
        &&& self.assets.len() == 40
        &&& self.players.len() >= 1
        &&& 0 <= self.active < self.players.len()
        &&& forall|i: int|
            0 <= i < self.players.len() ==> (#[trigger] self.players[i]).turn_idx == i
        &&& forall|i: int| 0 <= i < self.players.len() ==> (#[trigger] self.players[i]).position < 40
        &&& forall|i: int| 0 <= i < 40 ==> (#[trigger] self.assets[i]).wf()
        &&& forall|i: int|
            0 <= i < 40 ==> match (#[trigger] self.assets[i]).owner {
                Some(o) => o < self.players.len(),
                None => true,
            }
        &&& forall|i: int| 0 <= i < self.chance.len() ==> (#[trigger] self.chance[i]).wf()
        &&& forall|i: int| 0 <= i < self.community.len() ==> (#[trigger] self.community[i]).wf()
    }

    /// The suburb tag of a square: the colour name of its suburb, `None`
    /// for squares without one.
    pub open spec fn suburb_color(self, i: int) -> Option<Seq<char>> {
        match self.board[i].street_details {
            Some(d) => match d.suburb {
                Some(s) => Some(s.color@),
                None => None,
            },
            None => None,
        }
    }

    /// Whether square `j` is a sibling of square `idx`'s suburb group:
    /// both squares have street details and their suburb tags agree.
    pub open spec fn suburb_group_of(self, idx: int, j: int) -> bool {
        &&& self.board[idx].street_details is Some
        &&& self.board[j].street_details is Some
        &&& self.suburb_color(j) == self.suburb_color(idx)
    }

    /// The player owns the street and every other square sharing its
    /// suburb tag: none unowned, none owned by another.
    pub open spec fn spec_player_owns_suburb(self, player_idx: usize, street_idx: int) -> bool {
        &&& self.assets[street_idx].owner == Some(player_idx)
        &&& forall|j: int|
            0 <= j < 40 && #[trigger] self.suburb_group_of(street_idx, j)
                ==> self.assets[j].owner == Some(player_idx)
    }

    /// Building must proceed evenly: a street may take another house only
    /// if no sibling street in its suburb has fewer houses.
    pub open spec fn spec_street_eligible_for_house(self, street_idx: int) -> bool {
        forall|j: int|
            0 <= j < 40 && j != street_idx && #[trigger] self.suburb_group_of(street_idx, j)
                ==> self.assets[street_idx].house_num <= self.assets[j].house_num
    }

    /// Selling must proceed evenly, highest first: a street may give up a
    /// house only if no sibling street has more houses.
    pub open spec fn spec_street_eligible_for_house_sale(self, street_idx: int) -> bool {
        forall|j: int|
            0 <= j < 40 && j != street_idx && #[trigger] self.suburb_group_of(street_idx, j)
                ==> self.assets[street_idx].house_num >= self.assets[j].house_num
    }

    /// A hotel may be built only when every sibling street carries four
    /// houses or a hotel already.
    pub open spec fn spec_street_eligible_for_hotel(self, street_idx: int) -> bool {
        forall|j: int|
            0 <= j < 40 && j != street_idx && #[trigger] self.suburb_group_of(street_idx, j)
                ==> self.assets[j].has_hotel || self.assets[j].house_num == 4
    }

    /// How many of the first `upto` squares are of type `t` and owned by
    /// player `p`.
    pub open spec fn count_owned_type(self, p: usize, t: SquareType, upto: int) -> int
        decreases upto,
    {
        if upto <= 0 {
            0
        } else {
            self.count_owned_type(p, t, upto - 1) + if self.board[upto - 1].square_type == t
                && self.assets[upto - 1].owner == Some(p) {
                1int
            } else {
                0int
            }
        }
    }

    /// The rent of a street once ownership is settled: the base rent
    /// without the whole suburb, the hotel rent with a hotel, and the
    /// schedule entry for the house count otherwise.
    pub open spec fn spec_street_rent(
        d: StreetDetails,
        owns_all: bool,
        house_num: u32,
        hotel: bool,
    ) -> u32 {
        if !owns_all {
            d.rent
        } else if hotel {
            d.rent_suburb[5]
        } else {
            d.rent_suburb[house_num as int]
        }
    }

    /// The rent due on square `idx` for a roll with cumulative pip sum
    /// `cum`: `None` when the square is unowned or mortgaged, the utility
    /// and station ladders for those kinds, and the street schedule
    /// otherwise.  A street square without details yields no rent.
    pub open spec fn spec_calculate_rent(self, idx: int, cum: int) -> Option<u32> {
        let a = self.assets[idx];
        match a.owner {
            None => None,
            Some(owner) => if a.is_mortgaged {
                None
            } else {
                match self.board[idx].square_type {
                    SquareType::Utility => {
                        let n = self.count_owned_type(owner, SquareType::Utility, 40);
                        if n == 1 {
                            Some(((cum * 4) % 0x1_0000_0000) as u32)
                        } else if n == 2 {
                            Some(((cum * 10) % 0x1_0000_0000) as u32)
                        } else {
                            Some(0u32)
                        }
                    },
                    SquareType::Station => {
                        let n = self.count_owned_type(owner, SquareType::Station, 40);
                        if n == 1 {
                            Some(25u32)
                        } else if n == 2 {
                            Some(50u32)
                        } else if n == 3 {
                            Some(100u32)
                        } else if n == 4 {
                            Some(200u32)
                        } else {
                            Some(0u32)
                        }
                    },
                    SquareType::Street => match self.board[idx].street_details {
                        Some(d) => Some(
                            GameView::spec_street_rent(
                                d,
                                self.spec_player_owns_suburb(owner, idx),
                                a.house_num,
                                a.has_hotel,
                            ),
                        ),
                        None => None,
                    },
                    _ => Some(0u32),
                }
            },
        }
    }
}

impl Game {
    /// The index in the player list of the currently active player.
    pub fn active_player(&self) -> (r: usize)
        ensures
            r == self@.active,
    {
        self.active_player
    }

    pub fn set_active_player(&mut self, p_idx: usize)
        requires
            p_idx < old(self)@.players.len(),
        ensures
            final(self)@ == (GameView { active: p_idx as int, ..old(self)@ }),
    {
        self.active_player = p_idx;
    }

    /// The square the active player is standing on.
    pub fn get_player_square(&self) -> (r: &Square)
        requires
            self@.wf(),
        ensures
            *r == self@.board[self@.players[self@.active].position as int],
    {
        let p_idx = self.active_player;
        let pos = self.players[p_idx].position;
        &self.board[pos]
    }

    /// Whether two squares share a suburb group: both have street details
    /// and their suburb tags agree.
    fn squares_share_suburb(&self, i: usize, j: usize) -> (r: bool)
        requires
            self@.wf(),
            i < 40,
            j < 40,
        ensures
            r == self@.suburb_group_of(i as int, j as int),
    {
        let di = match &self.board[i].street_details {
            Some(d) => Some(&d.suburb),
            None => None,
        };
        let dj = match &self.board[j].street_details {
            Some(d) => Some(&d.suburb),
            None => None,
        };
        match (di, dj) {
            (Some(si), Some(sj)) => match (si, sj) {
                (Some(a), Some(b)) => a.color.eq(&b.color),
                (None, None) => true,
                _ => false,
            },
            (None, Some(_)) => false,
            _ => false,
        }
    }

    /// Calculate if a player owns all squares in the suburb of the given
    /// street.
    pub fn player_owns_suburb(&self, player_idx: usize, street_idx: usize) -> (r: bool)
        requires
            self@.wf(),
            street_idx < 40,
        ensures
            r == self@.spec_player_owns_suburb(player_idx, street_idx as int),
    {
        match self.assets[street_idx].owner {
            None => {
                return false;
            },
            Some(o) => {
                if o != player_idx {
                    return false;
                }
            },
        }
        let mut j: usize = 0;
        while j < 40
            invariant
                self@.wf(),
                street_idx < 40,
                j <= 40,
                self@.assets[street_idx as int].owner == Some(player_idx),
                forall|k: int|
                    0 <= k < j && #[trigger] self@.suburb_group_of(street_idx as int, k)
                        ==> self@.assets[k].owner == Some(player_idx),
            decreases 40 - j,
        {
            if self.squares_share_suburb(street_idx, j) {
                match self.assets[j].owner {
                    None => {
                        return false;
                    },
                    Some(o) => {
                        if o != player_idx {
                            return false;
                        }
                    },
                }
            }
            j = j + 1;
        }
        true
    }

    /// Can this street take another house, relative to the other streets
    /// in its suburb.
    pub fn street_eligible_for_house(&self, street_idx: usize) -> (r: bool)
        requires
            self@.wf(),
            street_idx < 40,
        ensures
            r == self@.spec_street_eligible_for_house(street_idx as int),
    {
        let house_num = self.assets[street_idx].house_num;
        let mut j: usize = 0;
        while j < 40
            invariant
                self@.wf(),
                street_idx < 40,
                j <= 40,
                house_num == self@.assets[street_idx as int].house_num,
                forall|k: int|
                    0 <= k < j && k != street_idx && #[trigger] self@.suburb_group_of(
                        street_idx as int,
                        k,
                    ) ==> self@.assets[street_idx as int].house_num <= self@.assets[k].house_num,
            decreases 40 - j,
        {
            if j != street_idx && self.squares_share_suburb(street_idx, j) {
                if house_num > self.assets[j].house_num {
                    return false;
                }
            }
            j = j + 1;
        }
        true
    }

    /// Can this street give up a house, relative to the other streets in
    /// its suburb.
    pub fn street_eligible_for_house_sale(&self, street_idx: usize) -> (r: bool)
        requires
            self@.wf(),
            street_idx < 40,
        ensures
            r == self@.spec_street_eligible_for_house_sale(street_idx as int),
    {
        let house_num = self.assets[street_idx].house_num;
        let mut j: usize = 0;
        while j < 40
            invariant
                self@.wf(),
                street_idx < 40,
                j <= 40,
                house_num == self@.assets[street_idx as int].house_num,
                forall|k: int|
                    0 <= k < j && k != street_idx && #[trigger] self@.suburb_group_of(
                        street_idx as int,
                        k,
                    ) ==> self@.assets[street_idx as int].house_num >= self@.assets[k].house_num,
            decreases 40 - j,
        {
            if j != street_idx && self.squares_share_suburb(street_idx, j) {
                if house_num < self.assets[j].house_num {
                    return false;
                }
            }
            j = j + 1;
        }
        true
    }

    /// A hotel needs every sibling street to carry four houses or a hotel
    /// already.
    pub fn street_eligible_for_hotel(&self, street_idx: usize) -> (r: bool)
        requires
            self@.wf(),
            street_idx < 40,
        ensures
            r == self@.spec_street_eligible_for_hotel(street_idx as int),
    {
        let mut j: usize = 0;
        while j < 40
            invariant
                self@.wf(),
                street_idx < 40,
                j <= 40,
                forall|k: int|
                    0 <= k < j && k != street_idx && #[trigger] self@.suburb_group_of(
                        street_idx as int,
                        k,
                    ) ==> self@.assets[k].has_hotel || self@.assets[k].house_num == 4,
            decreases 40 - j,
        {
            if j != street_idx && self.squares_share_suburb(street_idx, j) {
                if !self.assets[j].has_hotel && self.assets[j].house_num != 4 {
                    return false;
                }
            }
            j = j + 1;
        }
        true
    }

    /// How many squares of the given type the player owns.
    fn count_owned_of_type(&self, player_idx: usize, t: SquareType) -> (r: u32)
        requires
            self@.wf(),
        ensures
            r == self@.count_owned_type(player_idx, t, 40),
            r <= 40,
    {
        let mut n: u32 = 0;
        let mut j: usize = 0;
        while j < 40
            invariant
                self@.wf(),
                j <= 40,
                n == self@.count_owned_type(player_idx, t, j as int),
                n <= j,
            decreases 40 - j,
        {
            let owned = match self.assets[j].owner {
                Some(o) => o == player_idx,
                None => false,
            };
            if owned && self.board[j].square_type() == t {
                n = n + 1;
            }
            j = j + 1;
        }
        n
    }

    /// Get all squares owned by a player, as their board indices in
    /// ascending order.
    pub fn get_player_owned_squares(&self, player_idx: usize) -> (r: Vec<usize>)
        requires
            self@.wf(),
        ensures
            forall|k: int| 0 <= k < r@.len() ==> 0 <= #[trigger] r@[k] < 40,
            forall|k: int|
                0 <= k < r@.len() ==> self@.assets[r@[k] as int].owner == Some(player_idx),
            forall|j: int|
                0 <= j < 40 && self@.assets[j].owner == Some(player_idx) ==> r@.contains(j as usize),
            forall|k1: int, k2: int| 0 <= k1 < k2 < r@.len() ==> r@[k1] < r@[k2],
    {
        let mut r: Vec<usize> = Vec::new();
        let mut j: usize = 0;
        while j < 40
            invariant
                self@.wf(),
                j <= 40,
                forall|k: int| 0 <= k < r@.len() ==> 0 <= #[trigger] r@[k] < j,
                forall|k: int|
                    0 <= k < r@.len() ==> self@.assets[r@[k] as int].owner == Some(player_idx),
                forall|i: int|
                    0 <= i < j && self@.assets[i].owner == Some(player_idx) ==> r@.contains(
                        i as usize,
                    ),
                forall|k1: int, k2: int| 0 <= k1 < k2 < r@.len() ==> r@[k1] < r@[k2],
            decreases 40 - j,
        {
            let owned = match self.assets[j].owner {
                Some(o) => o == player_idx,
                None => false,
            };
            if owned {
                let ghost prev = r@;
                r.push(j);
                proof {
                    assert forall|i: int|
                        0 <= i < j + 1 && self@.assets[i].owner == Some(
                            player_idx,
                        ) implies r@.contains(i as usize) by {
                        if i < j {
                            let k = choose|k: int| 0 <= k < prev.len() && prev[k] == i as usize;
                            assert(r@[k] == i as usize);
                        } else {
                            assert(r@[r@.len() - 1] == j);
                        }
                    }
                }
            }
            j = j + 1;
        }
        r
    }

    /// Calculate rent. If the square is unowned or mortgaged, there is no
    /// rent.  Utilities charge a multiple of the roll's cumulative pip
    /// sum, stations a ladder over the number owned, and streets their
    /// schedule, doubled base footing when the whole suburb is held.
    pub fn calculate_rent(&self, square_idx: usize, dice: Dice) -> (r: Option<u32>)
        requires
            self@.wf(),
            square_idx < 40,
            dice.cumulative_sum <= 400_000_000,
        ensures
            r == self@.spec_calculate_rent(square_idx as int, dice.cumulative_sum as int),
    {
        self.rent_for(square_idx, dice.cumulative_sum)
    }

    /// The rent engine proper, over the cumulative pip sum of the roll.
    fn rent_for(&self, square_idx: usize, cum: u32) -> (r: Option<u32>)
        requires
            self@.wf(),
            square_idx < 40,
            cum <= 400_000_000,
        ensures
            r == self@.spec_calculate_rent(square_idx as int, cum as int),
    {
        let owner = match self.assets[square_idx].owner {
            None => {
                return None;
            },
            Some(o) => o,
        };
        if self.assets[square_idx].is_mortgaged {
            return None;
        }
        match self.board[square_idx].square_type() {
            SquareType::Utility => {
                let n = self.count_owned_of_type(owner, SquareType::Utility);
                if n == 1 {
                    Some(cum * 4)
                } else if n == 2 {
                    Some(cum * 10)
                } else {
                    Some(0)
                }
            },
            SquareType::Station => {
                let n = self.count_owned_of_type(owner, SquareType::Station);
                if n == 1 {
                    Some(25)
                } else if n == 2 {
                    Some(50)
                } else if n == 3 {
                    Some(100)
                } else if n == 4 {
                    Some(200)
                } else {
                    Some(0)
                }
            },
            SquareType::Street => {
                let owns_all = self.player_owns_suburb(owner, square_idx);
                match &self.board[square_idx].street_details {
                    Some(d) => {
                        let a = &self.assets[square_idx];
                        if !owns_all {
                            Some(d.rent)
                        } else if a.has_hotel {
                            Some(d.rent_suburb[5])
                        } else {
                            Some(d.rent_suburb[a.house_num as usize])
                        }
                    },
                    None => None,
                }
            },
            _ => Some(0),
        }
    }
}

} // verus!


verus! {

impl GameView {
    /// The view with player `i` replaced.
    pub open spec fn with_player(self, i: int, p: Player) -> GameView {
        GameView { players: self.players.update(i, p), ..self }
    }

    /// The view with asset `i` replaced.
    pub open spec fn with_asset(self, i: int, a: Asset) -> GameView {
        GameView { assets: self.assets.update(i, a), ..self }
    }

    /// Debit `amt` from player `i`; fails, changing nothing, when the
    /// balance cannot cover it.
    pub open spec fn spec_debit(self, i: int, amt: int) -> (GameView, bool) {
        if self.players[i].cash >= amt {
            (
                self.with_player(
                    i,
                    Player { cash: (self.players[i].cash - amt) as u32, ..self.players[i] },
                ),
                true,
            )
        } else {
            (self, false)
        }
    }

    /// Credit `amt` to player `i`; fails, changing nothing, when the
    /// balance would overflow.
    pub open spec fn spec_credit(self, i: int, amt: int) -> (GameView, bool) {
        if self.players[i].cash + amt <= u32::MAX {
            (
                self.with_player(
                    i,
                    Player { cash: (self.players[i].cash + amt) as u32, ..self.players[i] },
                ),
                true,
            )
        } else {
            (self, false)
        }
    }

    /// Signed cash transaction on player `i`: a credit for positive
    /// `amount`, a debit for negative.
    pub open spec fn spec_transact(self, i: int, amount: int) -> (GameView, bool) {
        if 0 <= self.players[i].cash + amount <= u32::MAX {
            (
                self.with_player(
                    i,
                    Player { cash: (self.players[i].cash + amount) as u32, ..self.players[i] },
                ),
                true,
            )
        } else {
            (self, false)
        }
    }

    /// Move the active player `steps` squares forward; when the new index
    /// is smaller than the old one the player passed GO and is credited
    /// exactly $200.
    pub open spec fn spec_advance_with_go(self, steps: int) -> GameView {
        let i = self.active;
        let oldpos = self.players[i].position as int;
        let newpos = (oldpos + steps) % 40;
        let moved = self.with_player(i, Player { position: newpos as usize, ..self.players[i] });
        if newpos < oldpos {
            moved.spec_credit(i, 200).0
        } else {
            moved
        }
    }

    /// The active player goes straight to jail: position 10, no GO credit.
    pub open spec fn spec_go_to_jail(self) -> GameView {
        let i = self.active;
        self.with_player(i, Player { position: 10, is_in_jail: true, ..self.players[i] })
    }

    pub open spec fn spec_set_in_trouble(self, v: bool) -> GameView {
        let i = self.active;
        self.with_player(i, Player { is_in_trouble: v, ..self.players[i] })
    }

    /// Non-interactive jail release for the active player: a held
    /// get-out-of-jail-free card is consumed first; failing that the $50
    /// bribe is paid when the balance covers it; otherwise the player
    /// stays in jail.
    pub open spec fn spec_jail_time(self) -> GameView {
        let i = self.active;
        let p = self.players[i];
        if !p.is_in_jail {
            self
        } else if p.num_get_out_of_jail_cards >= 1 {
            self.with_player(
                i,
                Player {
                    num_get_out_of_jail_cards: (p.num_get_out_of_jail_cards - 1) as u32,
                    is_in_jail: false,
                    ..p
                },
            )
        } else if p.cash >= 50 {
            self.with_player(i, Player { cash: (p.cash - 50) as u32, is_in_jail: false, ..p })
        } else {
            self
        }
    }

    /// Landing on a corner: index 30 sends the player to jail, the other
    /// corners do nothing.
    pub open spec fn spec_corner_step(self) -> GameView {
        if self.players[self.active].position == 30 {
            self.spec_go_to_jail()
        } else {
            self
        }
    }

    /// Tax squares: $200 income tax at index 4, $100 luxury tax at index
    /// 38; a failed debit marks the obligation unmet.
    pub open spec fn spec_tax_step(self) -> (GameView, bool) {
        let pos = self.players[self.active].position as int;
        if pos == 4 {
            self.spec_debit(self.active, 200)
        } else if pos == 38 {
            self.spec_debit(self.active, 100)
        } else {
            (self, true)
        }
    }

    /// Houses owned by player `p` on squares without a hotel, over the
    /// first `upto` squares.
    pub open spec fn count_houses(self, p: usize, upto: int) -> int
        decreases upto,
    {
        if upto <= 0 {
            0
        } else {
            self.count_houses(p, upto - 1) + if self.assets[upto - 1].owner == Some(p)
                && !self.assets[upto - 1].has_hotel {
                self.assets[upto - 1].house_num as int
            } else {
                0int
            }
        }
    }

    /// Hotels owned by player `p` over the first `upto` squares.
    pub open spec fn count_hotels(self, p: usize, upto: int) -> int
        decreases upto,
    {
        if upto <= 0 {
            0
        } else {
            self.count_hotels(p, upto - 1) + if self.assets[upto - 1].owner == Some(p)
                && self.assets[upto - 1].has_hotel {
                1int
            } else {
                0int
            }
        }
    }

    /// Buying a square outright: the price is debited and the asset's
    /// owner becomes the buyer; an uncovered price fails and changes
    /// nothing.
    pub open spec fn spec_buy_property(self, i: int, pos: int, price: int) -> (GameView, bool) {
        let (g2, ok) = self.spec_debit(i, price);
        if ok {
            (
                g2.with_asset(
                    pos,
                    Asset { owner: Some(self.players[i].turn_idx), ..self.assets[pos] },
                ),
                true,
            )
        } else {
            (g2, false)
        }
    }

    /// Selling a square between players: a no-op when the buyer cannot
    /// pay; otherwise the seller is credited (an overflowing credit is
    /// forfeited), the buyer debited, and ownership transferred.
    pub open spec fn spec_sell_property(self, seller: int, buyer: int, pos: int, price: int)
        -> GameView {
        if self.players[buyer].cash < price {
            self
        } else {
            let g2 = self.spec_credit(seller, price).0;
            let g3 = g2.spec_debit(buyer, price).0;
            g3.with_asset(
                pos,
                Asset { owner: Some(self.players[buyer].turn_idx), ..self.assets[pos] },
            )
        }
    }

    /// Landing on a purchasable square: an unowned one is bought at the
    /// listed price (an uncovered price marks the obligation unmet); the
    /// player's own or a mortgaged square asks nothing; otherwise the
    /// rent is moved from the player to the owner, and a rent that cannot
    /// be paid fails without any transfer.
    pub open spec fn spec_property_step(self, cum: int) -> (GameView, bool) {
        let i = self.active;
        let pos = self.players[i].position as int;
        let a = self.assets[pos];
        match a.owner {
            None => self.spec_buy_property(i, pos, self.board[pos].spec_price() as int),
            Some(o) => {
                if o == self.players[i].turn_idx {
                    (self, true)
                } else if a.is_mortgaged {
                    (self, true)
                } else {
                    match self.spec_calculate_rent(pos, cum) {
                        Some(rent) => {
                            let (g2, ok) = self.spec_debit(i, rent as int);
                            if ok {
                                (g2.spec_credit(o as int, rent as int).0, true)
                            } else {
                                (self, false)
                            }
                        },
                        None => (self, true),
                    }
                }
            },
        }
    }

    /// The effect of a card that involves no movement: payments, jail,
    /// the jail-free card, and repairs.
    pub open spec fn spec_simple_card_effect(self, c: Card) -> (GameView, bool) {
        let i = self.active;
        match c.action {
            CardAction::Payment => match c.amount {
                Some(a) => self.spec_transact(i, 0 - a),
                None => (self, true),
            },
            CardAction::Jail => (self.spec_go_to_jail(), true),
            CardAction::JailRelease => {
                let p = self.players[i];
                if p.num_get_out_of_jail_cards < u32::MAX {
                    (
                        self.with_player(
                            i,
                            Player {
                                num_get_out_of_jail_cards: (p.num_get_out_of_jail_cards + 1) as u32,
                                ..p
                            },
                        ),
                        true,
                    )
                } else {
                    (self, true)
                }
            },
            CardAction::Repairs => match (c.amount, c.square) {
                (Some(a), Some(h)) => {
                    let total = self.count_houses(i as usize, 40) * a + self.count_hotels(
                        i as usize,
                        40,
                    ) * h;
                    self.spec_debit(i, total)
                },
                _ => (self, true),
            },
            _ => (self, true),
        }
    }

    /// One full card execution, including the recursive re-entry of the
    /// turn pipeline for movement cards.  `fuel` bounds the chain of card
    /// executions; an exhausted chain still moves the player but does not
    /// dispatch the destination square.
    pub open spec fn spec_card_effect(self, c: Card, fuel: nat) -> (GameView, bool)
        decreases fuel, 0nat,
    {
        let i = self.active;
        match c.action {
            CardAction::Movement => match c.square {
                Some(t) => {
                    let p_pos = self.players[i].position as int;
                    let steps = if t > p_pos {
                        t - p_pos
                    } else {
                        t + 40 - p_pos
                    };
                    if fuel == 0 {
                        (self.spec_advance_with_go(steps), true)
                    } else {
                        (
                            self.spec_turn(
                                Dice {
                                    roll: (steps as u32, 0u32),
                                    num_rolls: 1u32,
                                    cumulative_sum: steps as u32,
                                },
                                (fuel - 1) as nat,
                            ).0,
                            true,
                        )
                    }
                },
                None => (self, true),
            },
            CardAction::RelativeMovement => match c.square {
                Some(m) => {
                    if fuel == 0 {
                        (self.spec_advance_with_go(m as int), true)
                    } else {
                        (
                            self.spec_turn(
                                Dice { roll: (m, 0u32), num_rolls: 1u32, cumulative_sum: m },
                                (fuel - 1) as nat,
                            ).0,
                            true,
                        )
                    }
                },
                None => (self, true),
            },
            _ => self.spec_simple_card_effect(c),
        }
    }

    /// Landing on a card square: the top card of the deck is drawn and
    /// executed; a met obligation returns it to the bottom of the deck, a
    /// failed one to the top, so the same card is drawn again next time.
    /// An empty deck does nothing.
    pub open spec fn spec_card_square_step(self, is_chance: bool, fuel: nat) -> (GameView, bool)
        decreases fuel, 1nat,
    {
        let deck = if is_chance {
            self.chance
        } else {
            self.community
        };
        if deck.len() == 0 {
            (self, true)
        } else {
            let c = deck[0];
            let g1 = if is_chance {
                GameView { chance: deck.drop_first(), ..self }
            } else {
                GameView { community: deck.drop_first(), ..self }
            };
            let (g2, ok) = g1.spec_card_effect(c, fuel);
            if ok {
                (
                    if is_chance {
                        GameView { chance: g2.chance.push(c), ..g2 }
                    } else {
                        GameView { community: g2.community.push(c), ..g2 }
                    },
                    true,
                )
            } else {
                (
                    if is_chance {
                        GameView { chance: g2.chance.insert(0, c), ..g2 }
                    } else {
                        GameView { community: g2.community.insert(0, c), ..g2 }
                    },
                    false,
                )
            }
        }
    }

    /// Square dispatch by kind for the square the active player stands
    /// on.  The boolean reports whether every payment the square asked
    /// for was met.
    pub open spec fn spec_dispatch(self, cum: int, fuel: nat) -> (GameView, bool)
        decreases fuel, 2nat,
    {
        let pos = self.players[self.active].position as int;
        match self.board[pos].square_type {
            SquareType::Utility => self.spec_property_step(cum),
            SquareType::Station => self.spec_property_step(cum),
            SquareType::Street => self.spec_property_step(cum),
            SquareType::Corner => (self.spec_corner_step(), true),
            SquareType::Tax => self.spec_tax_step(),
            SquareType::CommunityCard => self.spec_card_square_step(false, fuel),
            SquareType::ChanceCard => self.spec_card_square_step(true, fuel),
        }
    }

    /// Movement and dispatch: advance by the cumulative pip sum (with the
    /// GO credit), resolve the landed square, and record in the trouble
    /// flag whether its obligation went unmet.
    pub open spec fn spec_move_and_dispatch(self, cum: int, fuel: nat) -> GameView
        decreases fuel, 3nat,
    {
        let g1 = self.spec_advance_with_go(cum);
        let (g2, ok) = g1.spec_dispatch(cum, fuel);
        g2.spec_set_in_trouble(!ok)
    }

    /// One whole turn for a given dice state.  A double releases a jailed
    /// player, who then moves on this roll; the third consecutive double
    /// jails the player outright; any other double asks the caller for a
    /// re-roll.  A jailed player who did not roll a double stays put.
    pub open spec fn spec_turn(self, dice: Dice, fuel: nat) -> (GameView, TurnOutcome)
        decreases fuel, 4nat,
    {
        let i = self.active;
        if dice.roll.0 == dice.roll.1 {
            if self.players[i].is_in_jail {
                let g1 = self.with_player(i, Player { is_in_jail: false, ..self.players[i] });
                (
                    g1.spec_move_and_dispatch(dice.cumulative_sum as int, fuel),
                    TurnOutcome::Complete,
                )
            } else if dice.num_rolls == 3 {
                (self.spec_go_to_jail(), TurnOutcome::Complete)
            } else {
                (self, TurnOutcome::RollAgain)
            }
        } else if self.players[i].is_in_jail {
            (self, TurnOutcome::Complete)
        } else {
            (self.spec_move_and_dispatch(dice.cumulative_sum as int, fuel), TurnOutcome::Complete)
        }
    }

    /// Retrying the obligation of the square the active player stands on,
    /// with zeroed dice: dispatch without movement, then record the
    /// outcome in the trouble flag.
    pub open spec fn spec_retry(self, fuel: nat) -> GameView {
        let (g2, ok) = self.spec_dispatch(0, fuel);
        g2.spec_set_in_trouble(!ok)
    }
}

/// Replacing one player while keeping the turn index and a position on
/// the board preserves well-formedness.
pub(crate) proof fn lemma_with_player_wf(g: GameView, i: int, p: Player)
    requires
        g.wf(),
        0 <= i < g.players.len(),
        p.turn_idx == i,
        p.position < 40,
    ensures
        g.with_player(i, p).wf(),
{
    let g2 = g.with_player(i, p);
    assert forall|j: int| 0 <= j < g2.players.len() implies (#[trigger] g2.players[j]).turn_idx == j
        && g2.players[j].position < 40 by {
        if j != i {
            assert(g2.players[j] == g.players[j]);
        }
    }
    assert forall|j: int| 0 <= j < 40 implies (#[trigger] g2.assets[j]).wf() by {
        assert(g2.assets[j] == g.assets[j]);
    }
}

/// Replacing one asset with a well-formed one whose owner exists
/// preserves well-formedness.
pub(crate) proof fn lemma_with_asset_wf(g: GameView, i: int, a: Asset)
    requires
        g.wf(),
        0 <= i < 40,
        a.wf(),
        a.owner matches Some(o) ==> o < g.players.len(),
    ensures
        g.with_asset(i, a).wf(),
{
    let g2 = g.with_asset(i, a);
    assert forall|j: int| 0 <= j < 40 implies (#[trigger] g2.assets[j]).wf() && (match g2.assets[j].owner {
        Some(o) => o < g2.players.len(),
        None => true,
    }) by {
        if j != i {
            assert(g2.assets[j] == g.assets[j]);
        }
    }
}

impl Game {
    /// Debit `amt` from player `i`'s balance; reports whether the balance
    /// covered it.
    pub(crate) fn debit_player(&mut self, i: usize, amt: u32) -> (ok: bool)
        requires
            i < old(self)@.players.len(),
        ensures
            ({
                let (gv, ok2) = old(self)@.spec_debit(i as int, amt as int);
                final(self)@ == gv && ok == ok2
            }),
    {
        let p = &mut self.players[i];
        if p.cash >= amt {
            p.cash = p.cash - amt;
            true
        } else {
            false
        }
    }

    /// Credit `amt` to player `i`'s balance; fails only on overflow.
    pub(crate) fn credit_player(&mut self, i: usize, amt: u32) -> (ok: bool)
        requires
            i < old(self)@.players.len(),
        ensures
            ({
                let (gv, ok2) = old(self)@.spec_credit(i as int, amt as int);
                final(self)@ == gv && ok == ok2
            }),
    {
        let p = &mut self.players[i];
        if p.cash <= u32::MAX - amt {
            p.cash = p.cash + amt;
            true
        } else {
            false
        }
    }

    /// Signed cash transaction on player `i`.
    fn transact_player(&mut self, i: usize, amount: i32) -> (ok: bool)
        requires
            i < old(self)@.players.len(),
        ensures
            ({
                let (gv, ok2) = old(self)@.spec_transact(i as int, amount as int);
                final(self)@ == gv && ok == ok2
            }),
    {
        match self.players[i].transact_cash(amount) {
            Ok(_) => true,
            Err(_) => false,
        }
    }

    /// Give player in jail its non-interactive way out: redeem a held
    /// card, else pay the $50 bribe when affordable, else stay.
    pub fn jail_time(&mut self)
        requires
            old(self)@.wf(),
        ensures
            final(self)@ == old(self)@.spec_jail_time(),
            final(self)@.wf(),
    {
        let i = self.active_player;
        if !self.players[i].is_in_jail() {
            return ;
        }
        if self.players[i].num_get_out_of_jail_cards() >= 1 {
            let _ = self.players[i].redeem_jail_free_card();
        } else if self.players[i].cash() >= 50 {
            let _ = self.players[i].bribe_guards();
        }
        proof {
            lemma_with_player_wf(old(self)@, i as int, self@.players[i as int]);
        }
    }

    /// Move the active player `steps` squares forward; passing GO (the
    /// new index is smaller than the old one) credits exactly $200.
    pub fn advance_with_go(&mut self, steps: u32)
        requires
            old(self)@.wf(),
            steps <= u32::MAX - 40,
        ensures
            final(self)@ == old(self)@.spec_advance_with_go(steps as int),
            final(self)@.wf(),
            ({
                let p = old(self)@.players[old(self)@.active];
                let q = final(self)@.players[old(self)@.active];
                &&& q.position == (p.position + steps) as int % 40
                &&& q.position < p.position && p.cash + 200 <= u32::MAX ==> q.cash == p.cash + 200
                &&& q.position >= p.position ==> q.cash == p.cash
            }),
    {
        let i = self.active_player;
        let old_pos = self.players[i].position();
        self.players[i].advance(steps, BOARD_SIZE);
        if self.players[i].position() < old_pos {
            let _ = self.credit_player(i, 200);
        }
        proof {
            lemma_with_player_wf(old(self)@, i as int, self@.players[i as int]);
        }
    }
}

} // verus!

verus! {

/// Replacing both decks with all-well-formed ones preserves
/// well-formedness.
proof fn lemma_with_decks_wf(g: GameView, ch: Seq<Card>, co: Seq<Card>)
    requires
        g.wf(),
        forall|i: int| 0 <= i < ch.len() ==> (#[trigger] ch[i]).wf(),
        forall|i: int| 0 <= i < co.len() ==> (#[trigger] co[i]).wf(),
    ensures
        (GameView { chance: ch, community: co, ..g }).wf(),
{
}

impl Game {
    /// Purchase the property at `square_idx` for `new_owner_idx` at the
    /// given price.  The purchase fails, changing nothing, when the
    /// balance cannot cover the price.
    pub fn buy_property(&mut self, new_owner_idx: usize, square_idx: usize, price: u32) -> (r:
        Result<(), ()>)
        requires
            old(self)@.wf(),
            new_owner_idx < old(self)@.players.len(),
            square_idx < 40,
        ensures
            ({
                let (gv, ok) = old(self)@.spec_buy_property(
                    new_owner_idx as int,
                    square_idx as int,
                    price as int,
                );
                final(self)@ == gv && (r is Ok <==> ok)
            }),
            final(self)@.wf(),
    {
        if self.debit_player(new_owner_idx, price) {
            let t = self.players[new_owner_idx].turn_idx();
            let ghost mid = self@;
            let a = &mut self.assets[square_idx];
            a.owner = Some(t);
            proof {
                lemma_with_player_wf(old(self)@, new_owner_idx as int, mid.players[new_owner_idx as int]);
                lemma_with_asset_wf(mid, square_idx as int, self@.assets[square_idx as int]);
            }
            Ok(())
        } else {
            Err(())
        }
    }

    /// Sell the property at `square_idx` from one player to another at an
    /// agreed price.  Nothing happens when the buyer cannot pay;
    /// otherwise the seller is credited, the buyer debited, and
    /// ownership transferred.
    pub fn sell_property(
        &mut self,
        orig_owner_idx: usize,
        new_owner_idx: usize,
        square_idx: usize,
        price: u32,
    )
        requires
            old(self)@.wf(),
            orig_owner_idx < old(self)@.players.len(),
            new_owner_idx < old(self)@.players.len(),
            square_idx < 40,
        ensures
            final(self)@ == old(self)@.spec_sell_property(
                orig_owner_idx as int,
                new_owner_idx as int,
                square_idx as int,
                price as int,
            ),
            final(self)@.wf(),
    {
        if self.players[new_owner_idx].cash() < price {
            return ;
        }
        let _ = self.credit_player(orig_owner_idx, price);
        let ghost mid1 = self@;
        let _ = self.debit_player(new_owner_idx, price);
        let ghost mid2 = self@;
        let t = self.players[new_owner_idx].turn_idx();
        let a = &mut self.assets[square_idx];
        a.owner = Some(t);
        proof {
            lemma_with_player_wf(old(self)@, orig_owner_idx as int, mid1.players[orig_owner_idx as int]);
            lemma_with_player_wf(mid1, new_owner_idx as int, mid2.players[new_owner_idx as int]);
            lemma_with_asset_wf(mid2, square_idx as int, self@.assets[square_idx as int]);
        }
    }

    /// Actions on corner squares: the go-to-jail corner jails the player,
    /// the others do nothing.
    fn execute_square_corner(&mut self)
        requires
            old(self)@.wf(),
        ensures
            final(self)@ == old(self)@.spec_corner_step(),
            final(self)@.wf(),
    {
        let i = self.active_player;
        if self.players[i].position() == 30 {
            self.players[i].go_to_jail();
            proof {
                lemma_with_player_wf(old(self)@, i as int, self@.players[i as int]);
            }
        }
    }

    /// Tax squares: income tax of $200 at index 4, luxury tax of $100 at
    /// index 38.  A debit the balance cannot cover fails and is reported.
    fn execute_square_tax(&mut self) -> (r: Result<(), ()>)
        requires
            old(self)@.wf(),
        ensures
            ({
                let (gv, ok) = old(self)@.spec_tax_step();
                final(self)@ == gv && (r is Ok <==> ok)
            }),
            final(self)@.wf(),
    {
        let i = self.active_player;
        let pos = self.players[i].position();
        let r = if pos == 4 {
            if self.debit_player(i, 200) {
                Ok(())
            } else {
                Err(())
            }
        } else if pos == 38 {
            if self.debit_player(i, 100) {
                Ok(())
            } else {
                Err(())
            }
        } else {
            Ok(())
        };
        proof {
            if old(self)@ != self@ {
                lemma_with_player_wf(old(self)@, i as int, self@.players[i as int]);
            }
        }
        r
    }

    /// Houses owned by the player on squares without a hotel.
    fn count_player_houses(&self, p: usize) -> (r: u32)
        requires
            self@.wf(),
        ensures
            r == self@.count_houses(p, 40),
            r <= 160,
    {
        let mut n: u32 = 0;
        let mut j: usize = 0;
        while j < 40
            invariant
                self@.wf(),
                j <= 40,
                n == self@.count_houses(p, j as int),
                n <= 4 * j,
            decreases 40 - j,
        {
            let a = &self.assets[j];
            let owned = match a.owner {
                Some(o) => o == p,
                None => false,
            };
            if owned && !a.has_hotel {
                n = n + a.house_num;
            }
            j = j + 1;
        }
        n
    }

    /// Hotels owned by the player.
    fn count_player_hotels(&self, p: usize) -> (r: u32)
        requires
            self@.wf(),
        ensures
            r == self@.count_hotels(p, 40),
            r <= 40,
    {
        let mut n: u32 = 0;
        let mut j: usize = 0;
        while j < 40
            invariant
                self@.wf(),
                j <= 40,
                n == self@.count_hotels(p, j as int),
                n <= j,
            decreases 40 - j,
        {
            let a = &self.assets[j];
            let owned = match a.owner {
                Some(o) => o == p,
                None => false,
            };
            if owned && a.has_hotel {
                n = n + 1;
            }
            j = j + 1;
        }
        n
    }

    /// Landed on a square that can be bought: buy it when unowned (the
    /// engine is the non-interactive core and auto-accepts; an uncovered
    /// price is a failed obligation), pay nothing on one's own or a
    /// mortgaged square, and otherwise move the rent from the player to
    /// the owner.
    fn execute_square_property(&mut self, cum: u32) -> (r: Result<(), ()>)
        requires
            old(self)@.wf(),
            cum <= 400_000_000,
        ensures
            ({
                let (gv, ok) = old(self)@.spec_property_step(cum as int);
                final(self)@ == gv && (r is Ok <==> ok)
            }),
            final(self)@.wf(),
    {
        let i = self.active_player;
        let pos = self.players[i].position();
        match self.assets[pos].owner {
            None => {
                let price = self.board[pos].get_price();
                self.buy_property(i, pos, price)
            },
            Some(o) => {
                if o == self.players[i].turn_idx() {
                    return Ok(());
                }
                if self.assets[pos].is_mortgaged() {
                    return Ok(());
                }
                match self.rent_for(pos, cum) {
                    None => Ok(()),
                    Some(rent) => {
                        if self.debit_player(i, rent) {
                            let ghost mid = self@;
                            let _ = self.credit_player(o, rent);
                            proof {
                                lemma_with_player_wf(old(self)@, i as int, mid.players[i as int]);
                                lemma_with_player_wf(mid, o as int, self@.players[o as int]);
                            }
                            Ok(())
                        } else {
                            Err(())
                        }
                    },
                }
            },
        }
    }
}

} // verus!

verus! {

impl Game {
    /// Execute action on card for the active player.  Movement cards
    /// re-enter the full turn pipeline, so the destination square's own
    /// effects apply and passing GO still credits $200.
    pub fn execute_card(&mut self, card: &Card) -> (r: Result<(), ()>)
        requires
            old(self)@.wf(),
            card.wf(),
        ensures
            ({
                let (gv, ok) = old(self)@.spec_card_effect(*card, CARD_CHAIN_LIMIT as nat);
                final(self)@ == gv && (r is Ok <==> ok)
            }),
            final(self)@.wf(),
    {
        self.execute_card_inner(card, CARD_CHAIN_LIMIT)
    }

    fn execute_card_inner(&mut self, card: &Card, fuel: u32) -> (r: Result<(), ()>)
        requires
            old(self)@.wf(),
            card.wf(),
        ensures
            ({
                let (gv, ok) = old(self)@.spec_card_effect(*card, fuel as nat);
                final(self)@ == gv && (r is Ok <==> ok)
            }),
            final(self)@.wf(),
        decreases fuel, 0int,
    {
        let i = self.active_player;
        match *card.action() {
            CardAction::Movement => {
                let target = match card.square() {
                    Some(t) => t,
                    None => {
                        return Ok(());
                    },
                };
                let p_pos = self.players[i].position() as u32;
                let steps = if target > p_pos {
                    target - p_pos
                } else {
                    target + BOARD_SIZE - p_pos
                };
                if fuel == 0 {
                    self.advance_with_go(steps);
                } else {
                    let _ = self.execute_turn_inner(Dice::new(steps, 0), fuel - 1);
                }
                Ok(())
            },
            CardAction::RelativeMovement => {
                let m = match card.square() {
                    Some(m) => m,
                    None => {
                        return Ok(());
                    },
                };
                if fuel == 0 {
                    self.advance_with_go(m);
                } else {
                    let _ = self.execute_turn_inner(Dice::new(m, 0), fuel - 1);
                }
                Ok(())
            },
            CardAction::Payment => {
                let a = match card.amount() {
                    Some(a) => a,
                    None => {
                        return Ok(());
                    },
                };
                if self.transact_player(i, 0 - a) {
                    proof {
                        lemma_with_player_wf(old(self)@, i as int, self@.players[i as int]);
                    }
                    Ok(())
                } else {
                    Err(())
                }
            },
            CardAction::Jail => {
                self.players[i].go_to_jail();
                proof {
                    lemma_with_player_wf(old(self)@, i as int, self@.players[i as int]);
                }
                Ok(())
            },
            CardAction::JailRelease => {
                if self.players[i].num_get_out_of_jail_cards() < u32::MAX {
                    self.players[i].receive_jail_free_card();
                    proof {
                        lemma_with_player_wf(old(self)@, i as int, self@.players[i as int]);
                    }
                }
                Ok(())
            },
            CardAction::Repairs => {
                let (per_house, per_hotel) = match (card.amount(), card.square()) {
                    (Some(a), Some(h)) => (a, h),
                    _ => {
                        return Ok(());
                    },
                };
                let houses = self.count_player_houses(i);
                let hotels = self.count_player_hotels(i);
                proof {
                    assert(houses * (per_house as u32) <= 160 * 1_000_000) by (nonlinear_arith)
                        requires
                            houses <= 160,
                            0 <= per_house <= 1_000_000,
                    ;
                    assert(hotels * per_hotel <= 40 * 1_000_000) by (nonlinear_arith)
                        requires
                            hotels <= 40,
                            per_hotel <= 1_000_000,
                    ;
                }
                let total = houses * (per_house as u32) + hotels * per_hotel;
                let r = if self.debit_player(i, total) {
                    Ok(())
                } else {
                    Err(())
                };
                proof {
                    if old(self)@ != self@ {
                        lemma_with_player_wf(old(self)@, i as int, self@.players[i as int]);
                    }
                }
                r
            },
        }
    }

    fn execute_square_community(&mut self, fuel: u32) -> (r: Result<(), ()>)
        requires
            old(self)@.wf(),
        ensures
            ({
                let (gv, ok) = old(self)@.spec_card_square_step(false, fuel as nat);
                final(self)@ == gv && (r is Ok <==> ok)
            }),
            final(self)@.wf(),
        decreases fuel, 1int,
    {
        if self.community_cards.len() == 0 {
            return Ok(());
        }
        let ghost g0 = self@;
        let card = deck::draw(&mut self.community_cards);
        proof {
            assert forall|k: int| 0 <= k < self@.community.len() implies (#[trigger] self@.community[k]).wf() by {
                assert(self@.community[k] == g0.community[k + 1]);
            }
            assert(self@.chance == g0.chance);
            lemma_with_decks_wf(g0, self@.chance, self@.community);
            assert(self@ == (GameView { chance: self@.chance, community: self@.community, ..g0 }));
            assert(card == g0.community[0]);
            assert(card.wf());
        }
        let r = self.execute_card_inner(&card, fuel);
        let ghost g2 = self@;
        match r {
            Ok(_) => {
                deck::requeue_bottom(&mut self.community_cards, card);
                proof {
                    assert forall|k: int| 0 <= k < self@.community.len() implies (#[trigger] self@.community[k]).wf() by {
                        if k < g2.community.len() {
                            assert(self@.community[k] == g2.community[k]);
                        } else {
                            assert(self@.community[k] == card);
                        }
                    }
                    assert(self@.chance == g2.chance);
                    lemma_with_decks_wf(g2, self@.chance, self@.community);
                    assert(self@ == (GameView { chance: self@.chance, community: self@.community, ..g2 }));
                }
                Ok(())
            },
            Err(_) => {
                deck::requeue_top(&mut self.community_cards, card);
                proof {
                    assert forall|k: int| 0 <= k < self@.community.len() implies (#[trigger] self@.community[k]).wf() by {
                        if k > 0 {
                            assert(self@.community[k] == g2.community[k - 1]);
                        } else {
                            assert(self@.community[k] == card);
                        }
                    }
                    assert(self@.chance == g2.chance);
                    lemma_with_decks_wf(g2, self@.chance, self@.community);
                    assert(self@ == (GameView { chance: self@.chance, community: self@.community, ..g2 }));
                }
                Err(())
            },
        }
    }

    fn execute_square_chance(&mut self, fuel: u32) -> (r: Result<(), ()>)
        requires
            old(self)@.wf(),
        ensures
            ({
                let (gv, ok) = old(self)@.spec_card_square_step(true, fuel as nat);
                final(self)@ == gv && (r is Ok <==> ok)
            }),
            final(self)@.wf(),
        decreases fuel, 1int,
    {
        if self.chance_cards.len() == 0 {
            return Ok(());
        }
        let ghost g0 = self@;
        let card = deck::draw(&mut self.chance_cards);
        proof {
            assert forall|k: int| 0 <= k < self@.chance.len() implies (#[trigger] self@.chance[k]).wf() by {
                assert(self@.chance[k] == g0.chance[k + 1]);
            }
            assert(self@.community == g0.community);
            lemma_with_decks_wf(g0, self@.chance, self@.community);
            assert(self@ == (GameView { chance: self@.chance, community: self@.community, ..g0 }));
            assert(card == g0.chance[0]);
            assert(card.wf());
        }
        let r = self.execute_card_inner(&card, fuel);
        let ghost g2 = self@;
        match r {
            Ok(_) => {
                deck::requeue_bottom(&mut self.chance_cards, card);
                proof {
                    assert forall|k: int| 0 <= k < self@.chance.len() implies (#[trigger] self@.chance[k]).wf() by {
                        if k < g2.chance.len() {
                            assert(self@.chance[k] == g2.chance[k]);
                        } else {
                            assert(self@.chance[k] == card);
                        }
                    }
                    assert(self@.community == g2.community);
                    lemma_with_decks_wf(g2, self@.chance, self@.community);
                    assert(self@ == (GameView { chance: self@.chance, community: self@.community, ..g2 }));
                }
                Ok(())
            },
            Err(_) => {
                deck::requeue_top(&mut self.chance_cards, card);
                proof {
                    assert forall|k: int| 0 <= k < self@.chance.len() implies (#[trigger] self@.chance[k]).wf() by {
                        if k > 0 {
                            assert(self@.chance[k] == g2.chance[k - 1]);
                        } else {
                            assert(self@.chance[k] == card);
                        }
                    }
                    assert(self@.community == g2.community);
                    lemma_with_decks_wf(g2, self@.chance, self@.community);
                    assert(self@ == (GameView { chance: self@.chance, community: self@.community, ..g2 }));
                }
                Err(())
            },
        }
    }

    /// Resolve the square the active player stands on.
    fn dispatch_square(&mut self, cum: u32, fuel: u32) -> (r: Result<(), ()>)
        requires
            old(self)@.wf(),
            cum <= 400_000_000,
        ensures
            ({
                let (gv, ok) = old(self)@.spec_dispatch(cum as int, fuel as nat);
                final(self)@ == gv && (r is Ok <==> ok)
            }),
            final(self)@.wf(),
        decreases fuel, 2int,
    {
        let i = self.active_player;
        let pos = self.players[i].position();
        match self.board[pos].square_type() {
            SquareType::Utility => self.execute_square_property(cum),
            SquareType::Station => self.execute_square_property(cum),
            SquareType::Street => self.execute_square_property(cum),
            SquareType::Corner => {
                self.execute_square_corner();
                Ok(())
            },
            SquareType::Tax => self.execute_square_tax(),
            SquareType::CommunityCard => self.execute_square_community(fuel),
            SquareType::ChanceCard => self.execute_square_chance(fuel),
        }
    }

    /// Advance by the roll's cumulative pip sum, resolve the landed
    /// square, and record in the trouble flag whether its obligation was
    /// met.
    fn move_and_dispatch(&mut self, cum: u32, fuel: u32) -> (o: TurnOutcome)
        requires
            old(self)@.wf(),
            cum <= 400_000_000,
        ensures
            final(self)@ == old(self)@.spec_move_and_dispatch(cum as int, fuel as nat),
            final(self)@.wf(),
            o == TurnOutcome::Complete,
        decreases fuel, 3int,
    {
        self.advance_with_go(cum);
        let r = self.dispatch_square(cum, fuel);
        let ghost g2 = self@;
        let in_trouble = match r {
            Ok(_) => false,
            Err(_) => true,
        };
        let i = self.active_player;
        self.players[i].set_in_trouble(in_trouble);
        proof {
            lemma_with_player_wf(g2, i as int, self@.players[i as int]);
        }
        TurnOutcome::Complete
    }

    /// Execute the turn of the active player for a resolved dice state.
    /// The turn starts with the player moving; then the rules of the new
    /// square execute.  A double outside jail (before the third) asks the
    /// caller for a re-roll; the third consecutive double jails the
    /// player; a double rolled in jail releases the player, who moves on
    /// this roll; a jailed player without a double stays put.
    pub fn execute_turn(&mut self, dice: Dice) -> (o: TurnOutcome)
        requires
            old(self)@.wf(),
            dice.cumulative_sum <= 400_000_000,
        ensures
            ({
                let (gv, oo) = old(self)@.spec_turn(dice, CARD_CHAIN_LIMIT as nat);
                final(self)@ == gv && o == oo
            }),
            final(self)@.wf(),
    {
        self.execute_turn_inner(dice, CARD_CHAIN_LIMIT)
    }

    fn execute_turn_inner(&mut self, dice: Dice, fuel: u32) -> (o: TurnOutcome)
        requires
            old(self)@.wf(),
            dice.cumulative_sum <= 400_000_000,
        ensures
            ({
                let (gv, oo) = old(self)@.spec_turn(dice, fuel as nat);
                final(self)@ == gv && o == oo
            }),
            final(self)@.wf(),
        decreases fuel, 4int,
    {
        let i = self.active_player;
        if dice.is_double() {
            if self.players[i].is_in_jail() {
                self.players[i].leave_jail();
                proof {
                    lemma_with_player_wf(old(self)@, i as int, self@.players[i as int]);
                }
                return self.move_and_dispatch(dice.cumulative_sum(), fuel);
            }
            if dice.num_rolls == 3 {
                self.players[i].go_to_jail();
                proof {
                    lemma_with_player_wf(old(self)@, i as int, self@.players[i as int]);
                }
                return TurnOutcome::Complete;
            }
            return TurnOutcome::RollAgain;
        }
        if self.players[i].is_in_jail() {
            return TurnOutcome::Complete;
        }
        self.move_and_dispatch(dice.cumulative_sum(), fuel)
    }

    /// Retry the obligation of the square the active player stands on,
    /// with zeroed dice: no movement, dispatch only.  Used while a player
    /// in trouble liquidates assets.
    pub fn retry_current_square(&mut self)
        requires
            old(self)@.wf(),
        ensures
            final(self)@ == old(self)@.spec_retry(CARD_CHAIN_LIMIT as nat),
            final(self)@.wf(),
    {
        let r = self.dispatch_square(0, CARD_CHAIN_LIMIT);
        let ghost g2 = self@;
        let in_trouble = match r {
            Ok(_) => false,
            Err(_) => true,
        };
        let i = self.active_player;
        self.players[i].set_in_trouble(in_trouble);
        proof {
            lemma_with_player_wf(g2, i as int, self@.players[i as int]);
        }
    }
}

} // verus!

verus! {

impl GameView {
    /// A departing player's assets all return to the market; the player
    /// is marked as having left; and when the player was standing on a
    /// card square, the top card of that deck (drawn but not executed)
    /// moves to the bottom, preserving the deck order for the others.
    pub open spec fn spec_depart(self, p: usize) -> GameView {
        let cleared = Seq::new(
            40,
            |j: int|
                if self.assets[j].owner == Some(p) {
                    Asset { owner: None, house_num: 0, has_hotel: false, is_mortgaged: false }
                } else {
                    self.assets[j]
                },
        );
        let g1 = GameView { assets: cleared, ..self };
        let g2 = g1.with_player(p as int, Player { left_game: true, ..g1.players[p as int] });
        let pos = self.players[p as int].position as int;
        match self.board[pos].square_type {
            SquareType::CommunityCard => if g2.community.len() > 0 {
                GameView {
                    community: g2.community.drop_first().push(g2.community[0]),
                    ..g2
                }
            } else {
                g2
            },
            SquareType::ChanceCard => if g2.chance.len() > 0 {
                GameView { chance: g2.chance.drop_first().push(g2.chance[0]), ..g2 }
            } else {
                g2
            },
            _ => g2,
        }
    }
}

impl Game {
    /// The player leaves the game: every asset they own is liquified (no
    /// refund), they are marked as departed and never act again, and a
    /// card square they were occupying has its top card returned to the
    /// bottom of the deck.
    pub fn player_leaves_game(&mut self, player_idx: usize)
        requires
            old(self)@.wf(),
            player_idx < old(self)@.players.len(),
        ensures
            final(self)@ == old(self)@.spec_depart(player_idx),
            final(self)@.wf(),
    {
        let ghost g0 = self@;
        let mut j: usize = 0;
        while j < 40
            invariant
                self@.wf(),
                j <= 40,
                self@ == (GameView { assets: self@.assets, ..g0 }),
                self@.assets.len() == 40,
                forall|k: int|
                    0 <= k < j ==> self@.assets[k] == (if g0.assets[k].owner == Some(player_idx) {
                        Asset { owner: None, house_num: 0, has_hotel: false, is_mortgaged: false }
                    } else {
                        g0.assets[k]
                    }),
                forall|k: int| j <= k < 40 ==> self@.assets[k] == g0.assets[k],
            decreases 40 - j,
        {
            let owned = match self.assets[j].owner {
                Some(o) => o == player_idx,
                None => false,
            };
            if owned {
                let ghost mid = self@;
                let a = &mut self.assets[j];
                a.liquify();
                proof {
                    lemma_with_asset_wf(mid, j as int, self@.assets[j as int]);
                }
            }
            j = j + 1;
        }
        proof {
            let cleared = Seq::new(
                40,
                |k: int|
                    if g0.assets[k].owner == Some(player_idx) {
                        Asset { owner: None, house_num: 0, has_hotel: false, is_mortgaged: false }
                    } else {
                        g0.assets[k]
                    },
            );
            assert(self@.assets =~= cleared);
        }
        let ghost g1 = self@;
        self.players[player_idx].leave_game();
        proof {
            lemma_with_player_wf(g1, player_idx as int, self@.players[player_idx as int]);
        }
        let ghost g2 = self@;
        let pos = self.players[player_idx].position();
        match self.board[pos].square_type() {
            SquareType::CommunityCard => {
                if self.community_cards.len() > 0 {
                    let c = deck::draw(&mut self.community_cards);
                    deck::requeue_bottom(&mut self.community_cards, c);
                    proof {
                        assert forall|k: int|
                            0 <= k < self@.community.len() implies (
                        #[trigger] self@.community[k]).wf() by {
                            if k < g2.community.len() - 1 {
                                assert(self@.community[k] == g2.community[k + 1]);
                            } else {
                                assert(self@.community[k] == g2.community[0]);
                            }
                        }
                        assert(self@.chance == g2.chance);
                        lemma_with_decks_wf(g2, self@.chance, self@.community);
                        assert(self@ == (GameView {
                            chance: self@.chance,
                            community: self@.community,
                            ..g2
                        }));
                    }
                }
            },
            SquareType::ChanceCard => {
                if self.chance_cards.len() > 0 {
                    let c = deck::draw(&mut self.chance_cards);
                    deck::requeue_bottom(&mut self.chance_cards, c);
                    proof {
                        assert forall|k: int|
                            0 <= k < self@.chance.len() implies (#[trigger] self@.chance[k]).wf() by {
                            if k < g2.chance.len() - 1 {
                                assert(self@.chance[k] == g2.chance[k + 1]);
                            } else {
                                assert(self@.chance[k] == g2.chance[0]);
                            }
                        }
                        assert(self@.community == g2.community);
                        lemma_with_decks_wf(g2, self@.chance, self@.community);
                        assert(self@ == (GameView {
                            chance: self@.chance,
                            community: self@.community,
                            ..g2
                        }));
                    }
                }
            },
            _ => {},
        }
    }
}

} // verus!

verus! {

/// Everything a multiset-preserving shuffle returns is drawn from the
/// original deck, so well-formedness of every card survives it.
proof fn lemma_all_wf_after_shuffle(s1: Seq<Card>, s2: Seq<Card>)
    requires
        s2.to_multiset() == s1.to_multiset(),
        forall|i: int| 0 <= i < s1.len() ==> (#[trigger] s1[i]).wf(),
    ensures
        forall|i: int| 0 <= i < s2.len() ==> (#[trigger] s2[i]).wf(),
{
    broadcast use vstd::seq_lib::group_to_multiset_ensures;

    assert forall|i: int| 0 <= i < s2.len() implies (#[trigger] s2[i]).wf() by {
        assert(s2.contains(s2[i]));
        assert(s2.to_multiset().count(s2[i]) > 0);
        assert(s1.contains(s2[i]));
        let j = choose|j: int| 0 <= j < s1.len() && s1[j] == s2[i];
        assert(s1[j].wf());
    }
}

/// Load the chance cards, shuffled.
pub fn load_chance_cards() -> (r: Vec<Card>)
    ensures
        r@.len() == 15,
        forall|i: int| 0 <= i < r@.len() ==> (#[trigger] r@[i]).wf(),
{
    let mut cards: Vec<Card> = Vec::new();
    cards.push(Card::new("GO TO JAIL!", CardAction::Jail, None, None));
    cards.push(Card::new("Advance to St. Charles Place", CardAction::Movement, None, Some(11)));
    cards.push(
        Card::new(
            "Make general repairs on all your property. House, $25 each; Hotel, $100 each",
            CardAction::Repairs,
            Some(25),
            Some(100),
        ),
    );
    cards.push(Card::new("Go forward three spaces", CardAction::RelativeMovement, None, Some(3)));
    cards.push(
        Card::new(
            "You have been elected chairman of the board. Pay $50",
            CardAction::Payment,
            Some(50),
            None,
        ),
    );
    cards.push(Card::new("Take a trip to Reading Railroad.", CardAction::Movement, None, Some(5)));
    cards.push(Card::new("Speeding fine. Pay $15", CardAction::Payment, Some(15), None));
    cards.push(
        Card::new(
            "Your building load matures. Receive $150",
            CardAction::Payment,
            Some(-150),
            None,
        ),
    );
    cards.push(Card::new("Advance to Boardwalk", CardAction::Movement, None, Some(39)));
    cards.push(Card::new("Go back three spaces", CardAction::RelativeMovement, None, Some(37)));
    cards.push(Card::new("Advance to Illinois Avenue", CardAction::Movement, None, Some(24)));
    cards.push(Card::new("Advance to GO. Collect $200", CardAction::Movement, None, Some(0)));
    cards.push(Card::new("GET OUT OF JAIL FREE.", CardAction::JailRelease, None, None));
    cards.push(
        Card::new("You win the lottery. Receive $500", CardAction::Payment, Some(-150), None),
    );
    cards.push(Card::new("Advance to Water works.", CardAction::Movement, None, Some(28)));
    proof {
        assert(forall|i: int| 0 <= i < cards@.len() ==> (#[trigger] cards@[i]).wf());
    }
    let ghost before = cards@;
    deck::shuffle_cards(&mut cards);
    proof {
        lemma_all_wf_after_shuffle(before, cards@);
    }
    cards
}

/// Load the community chest cards, shuffled.
pub fn load_community_chest_cards() -> (r: Vec<Card>)
    ensures
        r@.len() == 16,
        forall|i: int| 0 <= i < r@.len() ==> (#[trigger] r@[i]).wf(),
{
    let mut cards: Vec<Card> = Vec::new();
    cards.push(
        Card::new(
            "You are assessed for Street repairs: $40 per House, $115 per Hotel",
            CardAction::Repairs,
            Some(40),
            Some(115),
        ),
    );
    cards.push(Card::new("GET OUT OF JAIL FREE.", CardAction::JailRelease, None, None));
    cards.push(
        Card::new(
            "You have won second prize in a beauty contest. Collect $10",
            CardAction::Payment,
            Some(-10),
            None,
        ),
    );
    cards.push(
        Card::new("Life insurance matures. Collect $100", CardAction::Payment, Some(-100), None),
    );
    cards.push(Card::new("It's your birthday. Collect $40", CardAction::Payment, Some(-40), None));
    cards.push(Card::new("Advance to GO. Collect $200", CardAction::Movement, None, Some(0)));
    cards.push(Card::new("You inherit $100", CardAction::Payment, Some(-100), None));
    cards.push(
        Card::new("Bank error in your favor. Collect $200", CardAction::Payment, Some(-200), None),
    );
    cards.push(
        Card::new("From sale of stock, you get $50", CardAction::Payment, Some(-50), None),
    );
    cards.push(Card::new("Collect $25 consultancy fee", CardAction::Payment, Some(-25), None));
    cards.push(
        Card::new("Holiday fund matures. Collect $100", CardAction::Payment, Some(-100), None),
    );
    cards.push(Card::new("Doctor's fees. Pay $50", CardAction::Payment, Some(50), None));
    cards.push(Card::new("Hospital fees. Pay $100", CardAction::Payment, Some(100), None));
    cards.push(Card::new("GO TO JAIL!", CardAction::Jail, None, None));
    cards.push(Card::new("School fees. Pay $50", CardAction::Payment, Some(50), None));
    cards.push(
        Card::new("Income tax refund. Collect $20", CardAction::Payment, Some(-20), None),
    );
    proof {
        assert(forall|i: int| 0 <= i < cards@.len() ==> (#[trigger] cards@[i]).wf());
    }
    let ghost before = cards@;
    deck::shuffle_cards(&mut cards);
    proof {
        lemma_all_wf_after_shuffle(before, cards@);
    }
    cards
}

} // verus!

verus! {

/// Load the squares of the board: the fixed 40-square layout, with GO at
/// index 0, the corners at 10, 20 and 30, the tax squares at 4 and 38,
/// Community Chest at 2, 17 and 33 and Chance at 7, 22 and 36.
pub fn load_squares() -> (r: Vec<Square>)
    ensures
        r@.len() == 40,
        r@[0].square_type == SquareType::Corner,
        r@[10].square_type == SquareType::Corner,
        r@[20].square_type == SquareType::Corner,
        r@[30].square_type == SquareType::Corner,
        r@[4].square_type == SquareType::Tax,
        r@[38].square_type == SquareType::Tax,
        r@[2].square_type == SquareType::CommunityCard,
        r@[17].square_type == SquareType::CommunityCard,
        r@[33].square_type == SquareType::CommunityCard,
        r@[7].square_type == SquareType::ChanceCard,
        r@[22].square_type == SquareType::ChanceCard,
        r@[36].square_type == SquareType::ChanceCard,
        forall|i: int|
            0 <= i < 40 ==> match (#[trigger] r@[i]).street_details {
                Some(d) => rent_table_monotone(d),
                None => true,
            },
{
    let mut b: Vec<Square> = Vec::new();
    b.push(Square::new("Just chillin' at the start", SquareType::Corner, None));
    b.push(
        Square::new(
            "Mediterranean Avenue",
            SquareType::Street,
            Some(StreetDetails::new('B', 60, 2, [4, 10, 30, 90, 160, 250], 30)),
        ),
    );
    b.push(Square::new("Community Chest", SquareType::CommunityCard, None));
    b.push(
        Square::new(
            "Baltic Avenue",
            SquareType::Street,
            Some(StreetDetails::new('B', 60, 4, [8, 20, 60, 180, 320, 450], 30)),
        ),
    );
    b.push(Square::new("Income Tax", SquareType::Tax, None));
    b.push(
        Square::new(
            "Reading Railroad",
            SquareType::Station,
            Some(StreetDetails::new('N', 200, 0, [0, 0, 0, 0, 0, 0], 100)),
        ),
    );
    b.push(
        Square::new(
            "Oriental Avenue",
            SquareType::Street,
            Some(StreetDetails::new('L', 100, 6, [12, 30, 90, 270, 400, 550], 50)),
        ),
    );
    b.push(Square::new("Chance", SquareType::ChanceCard, None));
    b.push(
        Square::new(
            "Vermont Avenue",
            SquareType::Street,
            Some(StreetDetails::new('L', 100, 6, [12, 30, 90, 270, 440, 550], 50)),
        ),
    );
    b.push(
        Square::new(
            "Connecticut Avenue",
            SquareType::Street,
            Some(StreetDetails::new('L', 120, 8, [16, 40, 100, 300, 450, 600], 60)),
        ),
    );
    b.push(Square::new("Visiting Jail", SquareType::Corner, None));
    b.push(
        Square::new(
            "St. Charles Place",
            SquareType::Street,
            Some(StreetDetails::new('P', 140, 10, [20, 50, 150, 450, 625, 750], 70)),
        ),
    );
    b.push(
        Square::new(
            "Electric Company",
            SquareType::Utility,
            Some(StreetDetails::new('N', 150, 0, [0, 0, 0, 0, 0, 0], 75)),
        ),
    );
    b.push(
        Square::new(
            "States Avenue",
            SquareType::Street,
            Some(StreetDetails::new('P', 140, 10, [20, 50, 150, 450, 625, 750], 70)),
        ),
    );
    b.push(
        Square::new(
            "Virginia Avenue",
            SquareType::Street,
            Some(StreetDetails::new('P', 160, 12, [24, 60, 180, 500, 700, 900], 80)),
        ),
    );
    b.push(
        Square::new(
            "Pennsylvania Railroad",
            SquareType::Station,
            Some(StreetDetails::new('N', 200, 0, [0, 0, 0, 0, 0, 0], 100)),
        ),
    );
    b.push(
        Square::new(
            "St. James Place",
            SquareType::Street,
            Some(StreetDetails::new('O', 180, 14, [28, 70, 200, 550, 750, 950], 90)),
        ),
    );
    b.push(Square::new("Community Chest", SquareType::CommunityCard, None));
    b.push(
        Square::new(
            "Tennessee Avenue",
            SquareType::Street,
            Some(StreetDetails::new('O', 180, 14, [28, 70, 200, 550, 750, 950], 90)),
        ),
    );
    b.push(
        Square::new(
            "New York Avenue",
            SquareType::Street,
            Some(StreetDetails::new('O', 200, 16, [32, 80, 220, 600, 800, 1000], 110)),
        ),
    );
    b.push(Square::new("Yay! Free Parking", SquareType::Corner, None));
    b.push(
        Square::new(
            "Kentucky Avenue",
            SquareType::Street,
            Some(StreetDetails::new('R', 220, 18, [36, 90, 250, 700, 875, 1050], 110)),
        ),
    );
    b.push(Square::new("Chance", SquareType::ChanceCard, None));
    b.push(
        Square::new(
            "Indiana Avenue",
            SquareType::Street,
            Some(StreetDetails::new('R', 220, 18, [36, 90, 250, 700, 875, 1050], 110)),
        ),
    );
    b.push(
        Square::new(
            "Illinois Avenue",
            SquareType::Street,
            Some(StreetDetails::new('R', 240, 20, [40, 100, 300, 750, 925, 1100], 120)),
        ),
    );
    b.push(
        Square::new(
            "B. & O. Railroad",
            SquareType::Station,
            Some(StreetDetails::new('N', 200, 0, [0, 0, 0, 0, 0, 0], 100)),
        ),
    );
    b.push(
        Square::new(
            "Atlantic Avenue",
            SquareType::Street,
            Some(StreetDetails::new('Y', 260, 22, [44, 110, 330, 800, 975, 1150], 130)),
        ),
    );
    b.push(
        Square::new(
            "Ventnor Avenue",
            SquareType::Street,
            Some(StreetDetails::new('Y', 260, 22, [44, 110, 330, 800, 975, 1150], 130)),
        ),
    );
    b.push(
        Square::new(
            "Water Works",
            SquareType::Utility,
            Some(StreetDetails::new('N', 150, 0, [0, 0, 0, 0, 0, 0], 75)),
        ),
    );
    b.push(
        Square::new(
            "Marvin Gardens",
            SquareType::Street,
            Some(StreetDetails::new('Y', 280, 24, [48, 120, 360, 850, 1025, 1200], 140)),
        ),
    );
    b.push(Square::new("Go To Jail", SquareType::Corner, None));
    b.push(
        Square::new(
            "Pacific Avenue",
            SquareType::Street,
            Some(StreetDetails::new('G', 300, 26, [52, 130, 390, 900, 1100, 1275], 150)),
        ),
    );
    b.push(
        Square::new(
            "North Carolina Avenue",
            SquareType::Street,
            Some(StreetDetails::new('G', 300, 26, [52, 130, 390, 900, 1100, 1275], 150)),
        ),
    );
    b.push(Square::new("Community Chest", SquareType::CommunityCard, None));
    b.push(
        Square::new(
            "Pennsylvania Avenue",
            SquareType::Street,
            Some(StreetDetails::new('G', 320, 28, [56, 150, 450, 1000, 1200, 1400], 160)),
        ),
    );
    b.push(
        Square::new(
            "Short Line",
            SquareType::Station,
            Some(StreetDetails::new('N', 200, 0, [0, 0, 0, 0, 0, 0], 100)),
        ),
    );
    b.push(Square::new("Chance", SquareType::ChanceCard, None));
    b.push(
        Square::new(
            "Park Place",
            SquareType::Street,
            Some(StreetDetails::new('I', 350, 35, [70, 175, 500, 1100, 1300, 1500], 175)),
        ),
    );
    b.push(Square::new("Luxury Tax", SquareType::Tax, None));
    b.push(
        Square::new(
            "Boardwalk",
            SquareType::Street,
            Some(StreetDetails::new('I', 400, 50, [100, 200, 600, 1400, 1700, 2000], 200)),
        ),
    );
    b
}

/// Initialize the game: one fresh player account per name, the standard
/// board, an empty asset arena, and both decks loaded and shuffled.
pub fn init(player_names: Vec<String>) -> (g: Game)
    requires
        player_names@.len() >= 1,
    ensures
        g@.wf(),
        g@.players.len() == player_names@.len(),
        forall|i: int|
            0 <= i < player_names@.len() ==> (#[trigger] g@.players[i]) == (Player {
                name: player_names@[i],
                position: 0,
                turn_idx: i as usize,
                cash: 1500,
                is_in_jail: false,
                num_get_out_of_jail_cards: 0,
                is_in_trouble: false,
                left_game: false,
            }),
        g@.active == 0,
        forall|i: int|
            0 <= i < 40 ==> (#[trigger] g@.assets[i]) == (Asset {
                owner: None,
                house_num: 0,
                has_hotel: false,
                is_mortgaged: false,
            }),
        g@.board.len() == 40,
        g@.board[0].square_type == SquareType::Corner,
        g@.board[10].square_type == SquareType::Corner,
        g@.board[20].square_type == SquareType::Corner,
        g@.board[30].square_type == SquareType::Corner,
        g@.board[4].square_type == SquareType::Tax,
        g@.board[38].square_type == SquareType::Tax,
        g@.board[2].square_type == SquareType::CommunityCard,
        g@.board[17].square_type == SquareType::CommunityCard,
        g@.board[33].square_type == SquareType::CommunityCard,
        g@.board[7].square_type == SquareType::ChanceCard,
        g@.board[22].square_type == SquareType::ChanceCard,
        g@.board[36].square_type == SquareType::ChanceCard,
        forall|i: int|
            0 <= i < 40 ==> match (#[trigger] g@.board[i]).street_details {
                Some(d) => rent_table_monotone(d),
                None => true,
            },
        g@.chance.len() == 15,
        g@.community.len() == 16,
{
    let mut players: Vec<Player> = Vec::new();
    let mut i: usize = 0;
    while i < player_names.len()
        invariant
            i <= player_names@.len(),
            players@.len() == i,
            forall|k: int|
                0 <= k < i ==> (#[trigger] players@[k]) == (Player {
                    name: player_names@[k],
                    position: 0,
                    turn_idx: k as usize,
                    cash: 1500,
                    is_in_jail: false,
                    num_get_out_of_jail_cards: 0,
                    is_in_trouble: false,
                    left_game: false,
                }),
        decreases player_names@.len() - i,
    {
        let name = player_names[i].clone();
        players.push(Player::new(name, i));
        i = i + 1;
    }
    let mut assets: Vec<Asset> = Vec::new();
    let mut j: usize = 0;
    while j < 40
        invariant
            j <= 40,
            assets@.len() == j,
            forall|k: int|
                0 <= k < j ==> (#[trigger] assets@[k]) == (Asset {
                    owner: None,
                    house_num: 0,
                    has_hotel: false,
                    is_mortgaged: false,
                }),
        decreases 40 - j,
    {
        assets.push(Asset::new());
        j = j + 1;
    }
    Game {
        players,
        chance_cards: load_chance_cards(),
        community_cards: load_community_chest_cards(),
        active_player: 0,
        board: load_squares(),
        assets,
    }
}

} // verus!

verus! {

/// Law: once a single owner holds every square of a suburb, ownership of
/// the suburb is affirmed for that owner at every street of the suburb,
/// and denied for every other player.
pub proof fn lemma_suburb_monopoly(g: GameView, p: usize, q: usize, i: int, j: int)
    requires
        g.wf(),
        0 <= i < 40,
        0 <= j < 40,
        g.suburb_group_of(i, j),
        forall|k: int|
            0 <= k < 40 && #[trigger] g.suburb_group_of(i, k) ==> g.assets[k].owner == Some(p),
        q != p,
    ensures
        g.spec_player_owns_suburb(p, j),
        !g.spec_player_owns_suburb(q, j),
{
    assert(g.assets[j].owner == Some(p));
    assert forall|k: int|
        0 <= k < 40 && #[trigger] g.suburb_group_of(j, k) implies g.assets[k].owner == Some(p) by {
        assert(g.suburb_group_of(i, k));
    }
}

/// A street's rent schedule is non-decreasing: holding the suburb earns
/// at least the base rent, each added house earns at least as much as
/// the last, and the hotel tops the ladder.  Every schedule of the
/// standard board satisfies this.
pub open spec fn rent_table_monotone(d: StreetDetails) -> bool {
    &&& d.rent <= d.rent_suburb[0]
    &&& forall|k: int| 0 <= k < 5 ==> #[trigger] d.rent_suburb[k] <= d.rent_suburb[k + 1]
}

/// Law: for a fixed street with a non-decreasing rent schedule, the rent
/// at house count `k + 1` is at least the rent at house count `k`, and
/// the hotel rent is at least the rent at four houses.  Both hold
/// whether or not the whole suburb is owned, and the suburb footing
/// never earns less than the base rent.
pub proof fn lemma_rent_monotone(d: StreetDetails, owns_all: bool, k: u32)
    requires
        rent_table_monotone(d),
        k < 4,
    ensures
        GameView::spec_street_rent(d, owns_all, k, false) <= GameView::spec_street_rent(
            d,
            owns_all,
            (k + 1) as u32,
            false,
        ),
        GameView::spec_street_rent(d, owns_all, 4, true) >= GameView::spec_street_rent(
            d,
            owns_all,
            4,
            false,
        ),
        GameView::spec_street_rent(d, true, k, false) >= GameView::spec_street_rent(
            d,
            false,
            k,
            false,
        ),
{
    assert(d.rent_suburb[k as int] <= d.rent_suburb[k as int + 1]);
    assert(d.rent_suburb[4] <= d.rent_suburb[5]);
    assert(d.rent_suburb[0] <= d.rent_suburb[1]);
    assert(d.rent_suburb[1] <= d.rent_suburb[2]);
    assert(d.rent_suburb[2] <= d.rent_suburb[3]);
}

/// Which streets a menu offers: the criteria match the asset state a
/// discrete transaction needs.
#[derive(Eq, PartialEq, Structural, Debug, Clone, Copy)]
pub enum StreetFilter {
    /// Any owned square.
    AnyOwned,
    /// Owned, with fewer than four houses (a house could be added).
    BelowFourHouses,
    /// Owned, with at least one house and no hotel (a house could go).
    HouseNoHotel,
    /// Owned, with exactly four houses (a hotel could be added).
    FourHouses,
    /// Owned, with a hotel.
    WithHotel,
    /// Owned and not mortgaged.
    Unmortgaged,
    /// Owned and mortgaged.
    Mortgaged,
}

/// Whether one asset satisfies a street filter.
pub open spec fn spec_filter_matches(a: Asset, f: StreetFilter) -> bool {
    match f {
        StreetFilter::AnyOwned => true,
        StreetFilter::BelowFourHouses => a.house_num < 4,
        StreetFilter::HouseNoHotel => a.house_num > 0 && !a.has_hotel,
        StreetFilter::FourHouses => a.house_num == 4,
        StreetFilter::WithHotel => a.has_hotel,
        StreetFilter::Unmortgaged => !a.is_mortgaged,
        StreetFilter::Mortgaged => a.is_mortgaged,
    }
}

impl Game {
    /// The board indices, in ascending order, of the squares the player
    /// owns that satisfy the filter; what the between-turn menus offer.
    pub fn eligible_streets(&self, owner_idx: usize, filter: StreetFilter) -> (r: Vec<usize>)
        requires
            self@.wf(),
        ensures
            forall|k: int| 0 <= k < r@.len() ==> 0 <= #[trigger] r@[k] < 40,
            forall|k: int|
                0 <= k < r@.len() ==> self@.assets[r@[k] as int].owner == Some(owner_idx)
                    && spec_filter_matches(self@.assets[r@[k] as int], filter),
            forall|j: int|
                0 <= j < 40 && self@.assets[j].owner == Some(owner_idx) && spec_filter_matches(
                    self@.assets[j],
                    filter,
                ) ==> r@.contains(j as usize),
            forall|k1: int, k2: int| 0 <= k1 < k2 < r@.len() ==> r@[k1] < r@[k2],
    {
        let mut r: Vec<usize> = Vec::new();
        let mut j: usize = 0;
        while j < 40
            invariant
                self@.wf(),
                j <= 40,
                forall|k: int| 0 <= k < r@.len() ==> 0 <= #[trigger] r@[k] < j,
                forall|k: int|
                    0 <= k < r@.len() ==> self@.assets[r@[k] as int].owner == Some(owner_idx)
                        && spec_filter_matches(self@.assets[r@[k] as int], filter),
                forall|i: int|
                    0 <= i < j && self@.assets[i].owner == Some(owner_idx) && spec_filter_matches(
                        self@.assets[i],
                        filter,
                    ) ==> r@.contains(i as usize),
                forall|k1: int, k2: int| 0 <= k1 < k2 < r@.len() ==> r@[k1] < r@[k2],
            decreases 40 - j,
        {
            let a = &self.assets[j];
            let owned = match a.owner {
                Some(o) => o == owner_idx,
                None => false,
            };
            let matches = match filter {
                StreetFilter::AnyOwned => true,
                StreetFilter::BelowFourHouses => a.house_num < 4,
                StreetFilter::HouseNoHotel => a.house_num > 0 && !a.has_hotel,
                StreetFilter::FourHouses => a.house_num == 4,
                StreetFilter::WithHotel => a.has_hotel,
                StreetFilter::Unmortgaged => !a.is_mortgaged,
                StreetFilter::Mortgaged => a.is_mortgaged,
            };
            if owned && matches {
                let ghost prev = r@;
                r.push(j);
                proof {
                    assert forall|i: int|
                        0 <= i < j + 1 && self@.assets[i].owner == Some(owner_idx)
                            && spec_filter_matches(self@.assets[i], filter) implies r@.contains(
                        i as usize,
                    ) by {
                        if i < j {
                            let k = choose|k: int| 0 <= k < prev.len() && prev[k] == i as usize;
                            assert(r@[k] == i as usize);
                        } else {
                            assert(r@[r@.len() - 1] == j);
                        }
                    }
                }
            }
            j = j + 1;
        }
        r
    }

    /// The player indices a selection menu offers: players still in the
    /// game, optionally excluding one.
    pub fn eligible_players(&self, exclude: Option<usize>) -> (r: Vec<usize>)
        requires
            self@.wf(),
        ensures
            forall|k: int|
                0 <= k < r@.len() ==> 0 <= #[trigger] r@[k] < self@.players.len()
                    && !self@.players[r@[k] as int].left_game && exclude != Some(r@[k]),
            forall|j: int|
                0 <= j < self@.players.len() && !self@.players[j].left_game && exclude != Some(
                    j as usize,
                ) ==> r@.contains(j as usize),
            forall|k1: int, k2: int| 0 <= k1 < k2 < r@.len() ==> r@[k1] < r@[k2],
    {
        let mut r: Vec<usize> = Vec::new();
        let mut j: usize = 0;
        while j < self.players.len()
            invariant
                self@.wf(),
                j <= self@.players.len(),
                forall|k: int|
                    0 <= k < r@.len() ==> 0 <= #[trigger] r@[k] < j
                        && !self@.players[r@[k] as int].left_game && exclude != Some(r@[k]),
                forall|i: int|
                    0 <= i < j && !self@.players[i].left_game && exclude != Some(i as usize)
                        ==> r@.contains(i as usize),
                forall|k1: int, k2: int| 0 <= k1 < k2 < r@.len() ==> r@[k1] < r@[k2],
            decreases self@.players.len() - j,
        {
            let excluded = match exclude {
                Some(e) => e == j,
                None => false,
            };
            if !excluded && !self.players[j].left_game() {
                let ghost prev = r@;
                r.push(j);
                proof {
                    assert forall|i: int|
                        0 <= i < j + 1 && !self@.players[i].left_game && exclude != Some(
                            i as usize,
                        ) implies r@.contains(i as usize) by {
                        if i < j {
                            let k = choose|k: int| 0 <= k < prev.len() && prev[k] == i as usize;
                            assert(r@[k] == i as usize);
                        } else {
                            assert(r@[r@.len() - 1] == j);
                        }
                    }
                }
            }
            j = j + 1;
        }
        r
    }
}

} // verus!
