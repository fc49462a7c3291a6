//! Discrete property transactions: selling streets between players,
//! building and selling houses and hotels, mortgaging and unmortgaging.
//! They are invoked both during a turn (insolvency handling) and from the
//! free-form menus between turns; each validates the game state and does
//! nothing when a rule would be broken.

use vstd::prelude::*;
use crate::game::{lemma_with_asset_wf, lemma_with_player_wf, Game, GameView};
use crate::player::Asset;

verus! {

/// The price of one building on the street's suburb, if the street can
/// carry buildings at all.
pub open spec fn spec_building_price(g: GameView, idx: int) -> Option<u32> {
    match g.board[idx].street_details {
        Some(d) => match d.suburb {
            Some(s) => Some(s.building_price),
            None => None,
        },
        None => None,
    }
}

/// Selling a street to another player: refused without effect when the
/// street has buildings, is not the seller's, or the buyer cannot pay.
pub open spec fn spec_sell_street(
    g: GameView,
    orig_owner: usize,
    new_owner: usize,
    idx: int,
    price: int,
) -> GameView {
    let a = g.assets[idx];
    if a.has_hotel || a.house_num > 0 {
        g
    } else if a.owner != Some(orig_owner) {
        g
    } else if g.players[new_owner as int].cash < price {
        g
    } else {
        g.spec_sell_property(orig_owner as int, new_owner as int, idx, price)
    }
}

/// Mortgaging: the owner receives the mortgage value and the square
/// yields no rent until unmortgaged.  Refused without effect on a square
/// with buildings, one already mortgaged, or one the player does not own.
pub open spec fn spec_mortgage_street(g: GameView, owner: usize, idx: int) -> GameView {
    let a = g.assets[idx];
    match g.board[idx].street_details {
        Some(d) => {
            if a.owner != Some(owner) {
                g
            } else if a.is_mortgaged {
                g
            } else if a.has_hotel || a.house_num > 0 {
                g
            } else {
                let g1 = g.spec_credit(owner as int, d.mortgage as int).0;
                g1.with_asset(idx, Asset { is_mortgaged: true, ..a })
            }
        },
        None => g,
    }
}

/// Unmortgaging: the owner pays the mortgage value plus the 10% fee and
/// the square earns rent again.  Refused without effect when the square
/// is not mortgaged, is not the player's, or the fee cannot be paid.
pub open spec fn spec_unmortgage_street(g: GameView, owner: usize, idx: int) -> GameView {
    let a = g.assets[idx];
    match g.board[idx].street_details {
        Some(d) => {
            if a.owner != Some(owner) {
                g
            } else if !a.is_mortgaged {
                g
            } else if d.mortgage > 390_000_000 {
                g
            } else {
                let (g1, ok) = g.spec_debit(owner as int, d.spec_unmortgage_amount() as int);
                if ok {
                    g1.with_asset(idx, Asset { is_mortgaged: false, ..a })
                } else {
                    g
                }
            }
        },
        None => g,
    }
}

/// Buying a house: needs a street in a suburb owned by the player,
/// ownership of the whole suburb, even building across the suburb, fewer
/// than four houses, and the building price in cash.
pub open spec fn spec_buy_house(g: GameView, owner: usize, idx: int) -> GameView {
    match spec_building_price(g, idx) {
        Some(bp) => {
            let a = g.assets[idx];
            if a.owner != Some(owner) {
                g
            } else if g.players[owner as int].cash < bp {
                g
            } else if !g.spec_player_owns_suburb(owner, idx) {
                g
            } else if !g.spec_street_eligible_for_house(idx) {
                g
            } else if a.house_num >= 4 {
                g
            } else {
                let g1 = g.with_asset(idx, Asset { house_num: (a.house_num + 1) as u32, ..a });
                g1.spec_debit(owner as int, bp as int).0
            }
        },
        None => g,
    }
}

/// Selling a house: needs the player's street with a house and no hotel,
/// and even selling across the suburb; the building price is refunded.
pub open spec fn spec_sell_house(g: GameView, owner: usize, idx: int) -> GameView {
    match spec_building_price(g, idx) {
        Some(bp) => {
            let a = g.assets[idx];
            if a.owner != Some(owner) {
                g
            } else if !g.spec_street_eligible_for_house_sale(idx) {
                g
            } else if a.house_num == 0 || a.has_hotel {
                g
            } else {
                let g1 = g.with_asset(idx, Asset { house_num: (a.house_num - 1) as u32, ..a });
                g1.spec_credit(owner as int, bp as int).0
            }
        },
        None => g,
    }
}

/// Buying a hotel: needs the whole suburb owned, four houses here and
/// four houses or a hotel on every sibling street, no hotel yet, and the
/// building price in cash.
pub open spec fn spec_buy_hotel(g: GameView, owner: usize, idx: int) -> GameView {
    match spec_building_price(g, idx) {
        Some(bp) => {
            let a = g.assets[idx];
            if a.owner != Some(owner) {
                g
            } else if g.players[owner as int].cash < bp {
                g
            } else if !g.spec_player_owns_suburb(owner, idx) {
                g
            } else if !g.spec_street_eligible_for_hotel(idx) {
                g
            } else if a.has_hotel || a.house_num != 4 {
                g
            } else {
                let g1 = g.with_asset(idx, Asset { has_hotel: true, ..a });
                g1.spec_debit(owner as int, bp as int).0
            }
        },
        None => g,
    }
}

/// Selling a hotel: the hotel flag is cleared (the square keeps its
/// four-house footing) and the building price is refunded.  Refused
/// without effect when there is no hotel or the street is not the
/// player's.
pub open spec fn spec_sell_hotel(g: GameView, owner: usize, idx: int) -> GameView {
    match spec_building_price(g, idx) {
        Some(bp) => {
            let a = g.assets[idx];
            if a.owner != Some(owner) {
                g
            } else if !a.has_hotel {
                g
            } else {
                let g1 = g.with_asset(idx, Asset { has_hotel: false, ..a });
                g1.spec_credit(owner as int, bp as int).0
            }
        },
        None => g,
    }
}

/// Sell a street to another player at an agreed price.
pub fn sell_street(
    game: &mut Game,
    orig_owner_idx: usize,
    new_owner_idx: usize,
    street_idx: usize,
    purchase_price: u32,
)
    requires
        old(game)@.wf(),
        orig_owner_idx < old(game)@.players.len(),
        new_owner_idx < old(game)@.players.len(),
        street_idx < 40,
    ensures
        final(game)@ == spec_sell_street(
            old(game)@,
            orig_owner_idx,
            new_owner_idx,
            street_idx as int,
            purchase_price as int,
        ),
        final(game)@.wf(),
{
    if game.assets[street_idx].has_buildings() {
        return ;
    }
    let owned = match game.assets[street_idx].owner {
        Some(o) => o == orig_owner_idx,
        None => false,
    };
    if !owned {
        return ;
    }
    if game.players[new_owner_idx].cash() < purchase_price {
        return ;
    }
    game.sell_property(orig_owner_idx, new_owner_idx, street_idx, purchase_price);
}

/// Mortgage a street for cash.
pub fn mortgage_street(game: &mut Game, owner_idx: usize, street_idx: usize)
    requires
        old(game)@.wf(),
        owner_idx < old(game)@.players.len(),
        street_idx < 40,
    ensures
        final(game)@ == spec_mortgage_street(old(game)@, owner_idx, street_idx as int),
        final(game)@.wf(),
{
    let mortgage_value = match game.board[street_idx].get_street_details() {
        Some(d) => d.mortgage(),
        None => {
            return ;
        },
    };
    let owned = match game.assets[street_idx].owner {
        Some(o) => o == owner_idx,
        None => false,
    };
    if !owned {
        return ;
    }
    if game.assets[street_idx].is_mortgaged() {
        return ;
    }
    if game.assets[street_idx].has_buildings() {
        return ;
    }
    let _ = game.credit_player(owner_idx, mortgage_value);
    let ghost mid = game@;
    let a = &mut game.assets[street_idx];
    a.mortgage();
    proof {
        lemma_with_player_wf(old(game)@, owner_idx as int, mid.players[owner_idx as int]);
        lemma_with_asset_wf(mid, street_idx as int, game@.assets[street_idx as int]);
    }
}

/// Lift the mortgage of a street, for the mortgage value plus the fee.
pub fn unmortgage_street(game: &mut Game, owner_idx: usize, street_idx: usize)
    requires
        old(game)@.wf(),
        owner_idx < old(game)@.players.len(),
        street_idx < 40,
    ensures
        final(game)@ == spec_unmortgage_street(old(game)@, owner_idx, street_idx as int),
        final(game)@.wf(),
{
    let amount = match game.board[street_idx].get_street_details() {
        Some(d) => {
            if d.mortgage() > 390_000_000 {
                return ;
            }
            d.get_unmortgage_amount()
        },
        None => {
            return ;
        },
    };
    let owned = match game.assets[street_idx].owner {
        Some(o) => o == owner_idx,
        None => false,
    };
    if !owned {
        return ;
    }
    if !game.assets[street_idx].is_mortgaged() {
        return ;
    }
    if game.debit_player(owner_idx, amount) {
        let ghost mid = game@;
        let a = &mut game.assets[street_idx];
        a.unmortgage();
        proof {
            lemma_with_player_wf(old(game)@, owner_idx as int, mid.players[owner_idx as int]);
            lemma_with_asset_wf(mid, street_idx as int, game@.assets[street_idx as int]);
        }
    }
}

/// Buy a house on a street.
pub fn buy_house(game: &mut Game, owner_idx: usize, street_idx: usize)
    requires
        old(game)@.wf(),
        owner_idx < old(game)@.players.len(),
        street_idx < 40,
    ensures
        final(game)@ == spec_buy_house(old(game)@, owner_idx, street_idx as int),
        final(game)@.wf(),
{
    let building_price = match game.board[street_idx].get_street_details() {
        Some(d) => match d.get_suburb() {
            Some(s) => s.building_price(),
            None => {
                return ;
            },
        },
        None => {
            return ;
        },
    };
    let owned = match game.assets[street_idx].owner {
        Some(o) => o == owner_idx,
        None => false,
    };
    if !owned {
        return ;
    }
    if game.players[owner_idx].cash() < building_price {
        return ;
    }
    if !game.player_owns_suburb(owner_idx, street_idx) {
        return ;
    }
    if !game.street_eligible_for_house(street_idx) {
        return ;
    }
    if game.assets[street_idx].house_num() >= 4 {
        return ;
    }
    let ghost g0 = game@;
    let a = &mut game.assets[street_idx];
    let _ = a.buy_house();
    proof {
        lemma_with_asset_wf(g0, street_idx as int, game@.assets[street_idx as int]);
    }
    let ghost mid = game@;
    let _ = game.debit_player(owner_idx, building_price);
    proof {
        lemma_with_player_wf(mid, owner_idx as int, game@.players[owner_idx as int]);
    }
}

/// Sell a house from a street.
pub fn sell_house(game: &mut Game, owner_idx: usize, street_idx: usize)
    requires
        old(game)@.wf(),
        owner_idx < old(game)@.players.len(),
        street_idx < 40,
    ensures
        final(game)@ == spec_sell_house(old(game)@, owner_idx, street_idx as int),
        final(game)@.wf(),
{
    let building_price = match game.board[street_idx].get_street_details() {
        Some(d) => match d.get_suburb() {
            Some(s) => s.building_price(),
            None => {
                return ;
            },
        },
        None => {
            return ;
        },
    };
    let owned = match game.assets[street_idx].owner {
        Some(o) => o == owner_idx,
        None => false,
    };
    if !owned {
        return ;
    }
    if !game.street_eligible_for_house_sale(street_idx) {
        return ;
    }
    if game.assets[street_idx].house_num() == 0 || game.assets[street_idx].has_hotel() {
        return ;
    }
    let ghost g0 = game@;
    let a = &mut game.assets[street_idx];
    let _ = a.sell_house();
    proof {
        lemma_with_asset_wf(g0, street_idx as int, game@.assets[street_idx as int]);
    }
    let ghost mid = game@;
    let _ = game.credit_player(owner_idx, building_price);
    proof {
        lemma_with_player_wf(mid, owner_idx as int, game@.players[owner_idx as int]);
    }
}

/// Buy a hotel on a street that carries four houses.
pub fn buy_hotel(game: &mut Game, owner_idx: usize, street_idx: usize)
    requires
        old(game)@.wf(),
        owner_idx < old(game)@.players.len(),
        street_idx < 40,
    ensures
        final(game)@ == spec_buy_hotel(old(game)@, owner_idx, street_idx as int),
        final(game)@.wf(),
{
    let building_price = match game.board[street_idx].get_street_details() {
        Some(d) => match d.get_suburb() {
            Some(s) => s.building_price(),
            None => {
                return ;
            },
        },
        None => {
            return ;
        },
    };
    let owned = match game.assets[street_idx].owner {
        Some(o) => o == owner_idx,
        None => false,
    };
    if !owned {
        return ;
    }
    if game.players[owner_idx].cash() < building_price {
        return ;
    }
    if !game.player_owns_suburb(owner_idx, street_idx) {
        return ;
    }
    if !game.street_eligible_for_hotel(street_idx) {
        return ;
    }
    if game.assets[street_idx].has_hotel() || game.assets[street_idx].house_num() != 4 {
        return ;
    }
    let ghost g0 = game@;
    let a = &mut game.assets[street_idx];
    let _ = a.buy_hotel();
    proof {
        lemma_with_asset_wf(g0, street_idx as int, game@.assets[street_idx as int]);
    }
    let ghost mid = game@;
    let _ = game.debit_player(owner_idx, building_price);
    proof {
        lemma_with_player_wf(mid, owner_idx as int, game@.players[owner_idx as int]);
    }
}

/// Sell the hotel of a street; the square keeps its four-house footing.
pub fn sell_hotel(game: &mut Game, owner_idx: usize, street_idx: usize)
    requires
        old(game)@.wf(),
        owner_idx < old(game)@.players.len(),
        street_idx < 40,
    ensures
        final(game)@ == spec_sell_hotel(old(game)@, owner_idx, street_idx as int),
        final(game)@.wf(),
{
    let building_price = match game.board[street_idx].get_street_details() {
        Some(d) => match d.get_suburb() {
            Some(s) => s.building_price(),
            None => {
                return ;
            },
        },
        None => {
            return ;
        },
    };
    let owned = match game.assets[street_idx].owner {
        Some(o) => o == owner_idx,
        None => false,
    };
    if !owned {
        return ;
    }
    if !game.assets[street_idx].has_hotel() {
        return ;
    }
    let ghost g0 = game@;
    let a = &mut game.assets[street_idx];
    a.sell_hotel();
    proof {
        lemma_with_asset_wf(g0, street_idx as int, game@.assets[street_idx as int]);
    }
    let ghost mid = game@;
    let _ = game.credit_player(owner_idx, building_price);
    proof {
        lemma_with_player_wf(mid, owner_idx as int, game@.players[owner_idx as int]);
    }
}

} // verus!
