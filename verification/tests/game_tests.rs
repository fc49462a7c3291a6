use monopoly::actions;
use monopoly::card::{Card, CardAction};
use monopoly::deck::shuffle_cards;
use monopoly::dice::Dice;
use monopoly::game::init;
use monopoly::square::StreetDetails;

#[test]
fn initialize_game() {
    let v = vec!["Bob".to_string(), "Joe".to_string(), "Sally".to_string()];
    let len = v.len();
    let g = init(v);
    assert_eq!(g.players.len(), len, "All players created");
    assert_eq!(g.players.get(0).unwrap().name(), "Bob", "First player");
    assert_eq!(g.players.get(1).unwrap().name(), "Joe", "Middle player");
    assert_eq!(g.players.get(2).unwrap().name(), "Sally", "Last player");
}

#[test]
fn pay_income_tax() {
    let mut g = init(vec!["Test".to_string()]);
    g.execute_turn(Dice::new(4, 0)); // income tax, $200
    let p = g.players.get(0).unwrap();
    assert_eq!(p.cash(), 1300);
}

#[test]
fn test_pass_go() {
    let mut g = init(vec!["Test".to_string()]);

    // advance on top of GO
    g.execute_turn(Dice::new(10, 0)); // visiting jail
    g.execute_turn(Dice::new(30, 0)); // on the go square
    assert_eq!(g.players.get(0).unwrap().cash(), 1700);

    // advance past GO
    g.execute_turn(Dice::new(20, 0)); // free parking
    assert_eq!(g.players.get(0).unwrap().cash(), 1700);
    g.execute_turn(Dice::new(30, 0)); // pass go, to visiting jail
    assert_eq!(g.players.get(0).unwrap().cash(), 1900);
}

#[test]
fn jail_time() {
    let mut g = init(vec!["Test".to_string()]);
    g.set_active_player(0);

    // go to jail
    g.players[0].receive_jail_free_card();
    assert_eq!(g.players[0].is_in_jail(), false);

    g.execute_turn(Dice::new(30, 0));
    assert_eq!(g.players[0].position(), 10);
    assert_eq!(g.players[0].is_in_jail(), true);
    assert_eq!(g.players[0].cash(), 1500);
    assert_eq!(g.players[0].num_get_out_of_jail_cards(), 1);

    // now release, using card
    g.jail_time();
    assert_eq!(g.players[0].num_get_out_of_jail_cards(), 0);
    assert_eq!(g.players[0].is_in_jail(), false);
    assert_eq!(g.players[0].cash(), 1500);

    // back in jail
    g.execute_turn(Dice::new(20, 0));
    assert_eq!(g.players[0].is_in_jail(), true);
    assert_eq!(g.players[0].num_get_out_of_jail_cards(), 0);
    assert_eq!(g.players[0].cash(), 1500);

    // now release, paying $50
    g.jail_time();
    assert_eq!(g.players[0].is_in_jail(), false);
    assert_eq!(g.players[0].num_get_out_of_jail_cards(), 0);
    assert_eq!(g.players[0].cash(), 1450);
}

#[test]
fn three_2_doubles_not_in_jail() {
    let mut g = init(vec!["Test".to_string()]);

    assert_eq!(g.players[0].is_in_jail(), false);

    let mut dice = Dice::new(2, 2);
    dice.reroll(Dice::new(2, 2));
    assert_eq!(dice.num_rolls, 2);
    g.execute_turn(dice);
    assert_eq!(g.players[0].is_in_jail(), false);
}

#[test]
fn three_doubles_in_jail() {
    let mut g = init(vec!["Test".to_string()]);

    assert_eq!(g.players[0].is_in_jail(), false);

    let mut dice = Dice::new(2, 2);
    dice.reroll(Dice::new(2, 2));
    dice.reroll(Dice::new(2, 2));
    assert_eq!(dice.num_rolls, 3);
    g.execute_turn(dice);
    assert_eq!(g.players[0].is_in_jail(), true);
    assert_eq!(g.players[0].cash(), 1500);
}

#[test]
fn player_in_jail_does_not_advance() {
    let mut g = init(vec!["Jailbird".to_string()]);

    // go to jail
    g.players[0].transact_cash(-1480).unwrap();
    let mut dice = Dice::new(2, 2);
    dice.reroll(Dice::new(2, 2));
    dice.reroll(Dice::new(2, 2));
    g.execute_turn(dice);
    assert_eq!(g.players[0].is_in_jail(), true);
    assert_eq!(g.players[0].cash(), 20); // now can't pay $50 to be free from jail

    // stay in jail when not rolling double or paying $50 to get free
    g.execute_turn(Dice::new(3, 2));
    assert_eq!(g.players[0].is_in_jail(), true);
    assert_eq!(g.players[0].position(), 10);
    assert_eq!(g.players[0].cash(), 20);

    // player is free when rolling double
    g.execute_turn(Dice::new(3, 3));
    assert_eq!(g.players[0].is_in_jail(), false);
    assert_eq!(g.players[0].position(), 16);
}

#[test]
fn calculate_rent_unowned() {
    let g = init(vec!["Test".to_string()]);
    // Unowned square | No Rent
    let r = g.calculate_rent(1, Dice::new(0, 0));
    assert_eq!(r, None);

    // Income tax | No rent
    let r = g.calculate_rent(4, Dice::new(0, 0));
    assert_eq!(r, None);

    // no-rent square
    let r = g.calculate_rent(10, Dice::new(0, 0));
    assert_eq!(r, None);
}

#[test]
fn calculate_rent_mortgaged() {
    let mut g = init(vec!["StreetOwner".to_string()]);
    assert_eq!(g.assets[3].owner, None);

    g.execute_turn(Dice::new(3, 0)); // Owner moves to Baltic Avenue

    g.assets[3].mortgage();
    assert_eq!(g.calculate_rent(3, Dice::new(0, 0)), None);
    g.assets[3].unmortgage();
    assert_eq!(g.calculate_rent(3, Dice::new(0, 0)), Some(4));
}

#[test]
fn calculate_rent_street() {
    let mut g = init(vec!["StreetOwner".to_string(), "StreetRenter".to_string()]);
    assert_eq!(g.assets[3].owner, None);

    // Buy the following squares:
    // Baltic Avenue[3] (1 of set of 2)
    // Oriental[6] & Vermont Ave[8] (2 of set of 3)
    // St. Charles place[11], States Ave[13], Virginia Ave[14] (3 of set of 3)
    // Park Place[37] & Boardwalk[39] (2 of set of 2)
    g.execute_turn(Dice::new(3, 0)); // Owner moves to Baltic Avenue
    g.execute_turn(Dice::new(3, 0)); // Owner moves to Oriental Avenue
    g.execute_turn(Dice::new(2, 0)); // Vermont Avenue
    g.execute_turn(Dice::new(3, 0)); // St. Charles place
    g.execute_turn(Dice::new(2, 0)); // States Ave
    g.execute_turn(Dice::new(1, 0)); // Virginia Ave
    g.execute_turn(Dice::new(23, 0)); // Park place
    g.execute_turn(Dice::new(2, 0)); // Boardwalk

    // Rent for 1 of 2 set
    assert_eq!(g.calculate_rent(3, Dice::new(0, 0)), Some(4)); // Baltic

    // Rent for 2 of 3 set
    assert_eq!(g.calculate_rent(6, Dice::new(0, 0)), Some(6)); // Oriental
    assert_eq!(g.calculate_rent(8, Dice::new(0, 0)), Some(6)); // Vermont

    // rent for 3 of 3 set
    assert_eq!(g.calculate_rent(11, Dice::new(0, 0)), Some(20)); // St. Charles
    assert_eq!(g.calculate_rent(13, Dice::new(0, 0)), Some(20)); // States Ave
    assert_eq!(g.calculate_rent(14, Dice::new(0, 0)), Some(24)); // Virginia Ave

    // rent for 2 of 2 set
    assert_eq!(g.calculate_rent(37, Dice::new(0, 0)), Some(70)); // Park Place
    assert_eq!(g.calculate_rent(39, Dice::new(0, 0)), Some(100)); // Boardwalk
}

#[test]
fn calculate_rent_utility() {
    // Buy 1 utility, then buy the second
    let mut g = init(vec!["TestOwner".to_string(), "TestRenter".to_string()]);

    g.execute_turn(Dice::new(12, 0)); // Electric
    let r = g.calculate_rent(12, Dice::new(1, 2));
    assert_eq!(r, Some(12)); // 3 * 4

    g.execute_turn(Dice::new(16, 0)); // Water
    let r = g.calculate_rent(28, Dice::new(3, 0));
    assert_eq!(r, Some(30)); // 3 * 10

    // cumulative roll
    let mut dice = Dice::new(3, 0);
    dice.reroll(Dice::new(6, 0)); // cumulative sum is 9
    let r = g.calculate_rent(28, dice);
    assert_eq!(r, Some(90)); // 9 * 10
}

#[test]
fn calculate_rent_station() {
    // Buy stations one at a time
    let mut g = init(vec!["StationOwner".to_string(), "StationRenter".to_string()]);

    g.execute_turn(Dice::new(5, 0)); // Reading Railroad
    assert_eq!(g.calculate_rent(5, Dice::new(0, 0)), Some(25));

    g.execute_turn(Dice::new(10, 0)); // Pennsylvania Railroad
    assert_eq!(g.calculate_rent(5, Dice::new(0, 0)), Some(50));

    g.execute_turn(Dice::new(10, 0)); // B.O. Railroad
    assert_eq!(g.calculate_rent(5, Dice::new(0, 0)), Some(100));

    g.execute_turn(Dice::new(10, 0)); // Short line
    assert_eq!(g.calculate_rent(5, Dice::new(0, 0)), Some(200));
}

#[test]
fn purchase_and_pay_rent() {
    let mut g = init(vec!["Owner".to_string(), "Renter".to_string()]);
    assert_eq!(g.assets[3].owner, None);

    g.execute_turn(Dice::new(3, 0)); // Owner moves to Baltic Avenue
    assert_eq!(g.players[0].cash(), 1440); // bought street
    assert_eq!(g.assets[3].owner.unwrap(), g.players[0].turn_idx());

    g.set_active_player(1);
    g.execute_turn(Dice::new(3, 0)); // Renter on Baltic Ave
    assert_eq!(g.players[1].cash(), 1496);
    assert_eq!(g.players[0].cash(), 1444);
}

#[test]
fn buy_each_property_type() {
    let mut g = init(vec!["Mongul".to_string()]);
    assert_eq!(g.assets[3].owner, None);

    g.execute_turn(Dice::new(3, 0)); // Mongul moves to Baltic Avenue
    assert_eq!(g.players[0].cash(), 1440); // bought street
    assert_eq!(g.assets[3].owner.unwrap(), g.players[0].turn_idx());

    g.execute_turn(Dice::new(9, 0)); // Mongul moves to Electric Company
    assert_eq!(g.players[0].cash(), 1290); // bought utility
    assert_eq!(g.assets[12].owner.unwrap(), g.players[0].turn_idx());

    g.execute_turn(Dice::new(3, 0)); // Mongul moves to Pennsylvania Railroad
    assert_eq!(g.players[0].cash(), 1090); // bought station
    assert_eq!(g.assets[15].owner.unwrap(), g.players[0].turn_idx());
}

#[test]
fn sell_a_property() {
    let mut g = init(vec!["Seller".to_string(), "NewOwner".to_string()]);
    assert_eq!(g.assets[3].owner, None);

    g.execute_turn(Dice::new(3, 0)); // Seller moves to Baltic Avenue
    assert_eq!(g.players[0].cash(), 1440); // bought street
    assert_eq!(g.assets[3].owner.unwrap(), g.players[0].turn_idx());

    g.sell_property(0, 1, 3, 20);
    assert_eq!(g.players[1].cash(), 1480);
    assert_eq!(g.players[0].cash(), 1460);
    assert_eq!(g.assets[3].owner.unwrap(), g.players[1].turn_idx());
}

#[test]
fn mortgage_then_unmortgage() {
    let mut g = init(vec!["M".to_string()]);
    let street_idx: usize = 3;
    assert_eq!(g.assets[street_idx].owner, None);

    g.execute_turn(Dice::new(3, 0)); // M moves to Baltic Avenue
    assert_eq!(g.players[0].cash(), 1440); // bought street
    assert_eq!(g.assets[street_idx].owner.unwrap(), g.players[0].turn_idx());

    actions::mortgage_street(&mut g, 0, street_idx);
    assert_eq!(g.players[0].cash(), 1470); // mortgage of 30
    assert_eq!(g.assets[street_idx].owner.unwrap(), g.players[0].turn_idx());
    assert_eq!(g.assets[street_idx].is_mortgaged(), true);

    actions::unmortgage_street(&mut g, 0, street_idx);
    assert_eq!(g.players[0].cash(), 1437); // unmortgage for 33
    assert_eq!(g.assets[street_idx].owner.unwrap(), g.players[0].turn_idx());
    assert_eq!(g.assets[street_idx].is_mortgaged(), false);
}

#[test]
fn shuffle_fake_cards() {
    let mut cards = Vec::new();
    cards.push(Card::new("Card 1", CardAction::Payment, Some(-1), None));
    cards.push(Card::new("Card 2", CardAction::Payment, Some(2), None));
    cards.push(Card::new("Card 3", CardAction::Payment, Some(10), None));
    cards.push(Card::new("Card 4", CardAction::Payment, Some(100), None));
    cards.push(Card::new("Card 5", CardAction::Payment, Some(-200), None));
    cards.push(Card::new("Card 6", CardAction::Payment, Some(-80), None));
    shuffle_cards(&mut cards);
    assert_eq!(cards.len(), 6);
    assert_eq!(
        false, // there must be a change in order
        cards.get(0).unwrap().description() == "Card 1"
            && cards.get(1).unwrap().description() == "Card 2"
            && cards.get(2).unwrap().description() == "Card 3"
            && cards.get(3).unwrap().description() == "Card 4"
            && cards.get(4).unwrap().description() == "Card 5"
            && cards.get(4).unwrap().description() == "Card 6"
    );
}

#[test]
fn unmortgage_cost_calculation() {
    assert_eq!(
        33,
        StreetDetails::new('B', 60, 2, [4, 0, 0, 0, 0, 0], 30).get_unmortgage_amount()
    );
    assert_eq!(
        193,
        StreetDetails::new('B', 60, 2, [4, 0, 0, 0, 0, 0], 175).get_unmortgage_amount()
    );
    assert_eq!(
        220,
        StreetDetails::new('B', 60, 2, [4, 0, 0, 0, 0, 0], 200).get_unmortgage_amount()
    );
}

#[test]
fn buy_first_house() {
    // cannot buy house unless all houses in suburb are owned
    let mut g = init(vec!["Tycoon".to_string()]);
    let street_idx: usize = 1;
    assert_eq!(g.assets[street_idx].owner, None);

    g.execute_turn(Dice::new(1, 0)); // Tycoon moves to Mediterranean Avenue
    assert_eq!(g.players[0].cash(), 1440); // bought street
    actions::buy_house(&mut g, 0, street_idx); // whole suburb isn't owned
    assert_eq!(g.assets[street_idx].house_num(), 0);

    g.execute_turn(Dice::new(2, 0)); // Tycoon moves to Baltic Avenue and buys it
    assert_eq!(g.players[0].cash(), 1380); // bought street
    actions::buy_house(&mut g, 0, street_idx); // buy on Mediterranean
    assert_eq!(g.assets[street_idx].house_num(), 1);
    assert_eq!(g.players[0].cash(), 1330); // bought house for 50

    // cannot buy second house on mediterranean
    actions::buy_house(&mut g, 0, street_idx);
    assert_eq!(g.assets[street_idx].house_num(), 1);
    assert_eq!(g.players[0].cash(), 1330); // no change

    // sell house
    actions::sell_house(&mut g, 0, street_idx);
    assert_eq!(g.assets[street_idx].house_num(), 0);
    assert_eq!(g.players[0].cash(), 1380); // sell house for 50
}

#[test]
fn buy_houses_then_hotel() {
    // buy all possible houses for suburb
    let mut g = init(vec!["Tycoon".to_string()]);
    let street_idx: usize = 1;
    assert_eq!(g.assets[street_idx].owner, None);
    let rs = *g
        .board
        .get(street_idx)
        .unwrap()
        .get_street_details()
        .unwrap()
        .rent_suburb();

    g.execute_turn(Dice::new(1, 0)); // Tycoon moves to Mediterranean Avenue
    assert_eq!(g.players[0].cash(), 1440); // bought street
    assert_eq!(
        g.calculate_rent(street_idx, Dice::new(3, 0)).unwrap(),
        2 // rent for Mediterranean w/o suburb
    );

    g.execute_turn(Dice::new(2, 0)); // Tycoon moves to Baltic Avenue
    assert_eq!(g.players[0].cash(), 1380); // bought street
    assert_eq!(
        g.calculate_rent(street_idx, Dice::new(3, 0)).unwrap(),
        rs[0] // rent for suburb
    );

    // tycoon now owns all streets, lets iteratively buy houses up to 4
    for i in 0..4u32 {
        // buy another house in Mediterranean then Baltic
        actions::buy_house(&mut g, 0, 1);
        assert_eq!(g.assets[1].house_num(), i + 1);
        let r: u32 = rs[(i + 1) as usize];
        assert_eq!(g.calculate_rent(1, Dice::new(3, 0)).unwrap(), r); // rent for houses

        actions::buy_house(&mut g, 0, 3);
        assert_eq!(g.assets[3].house_num(), i + 1);

        // not eligible for hotel
        if g.assets[3].house_num() != 4 {
            assert_eq!(g.street_eligible_for_hotel(3), false);
        }
    }

    // double check, both streets should have 4 houses
    assert_eq!(g.assets[1].house_num(), 4);
    assert_eq!(g.assets[3].house_num(), 4);

    // buying 5th house fails
    actions::buy_house(&mut g, 0, 1);
    assert_eq!(g.assets[1].house_num(), 4);
    assert_eq!(g.assets[1].has_hotel(), false);

    // buying hotel succeeds
    actions::buy_hotel(&mut g, 0, 1);
    assert_eq!(g.assets[1].house_num(), 4);
    assert_eq!(g.assets[1].has_hotel(), true);
}

#[test]
fn buy_hotels_fails() {
    // a hotel needs the suburb fully built first
    let mut g = init(vec!["Tycoon".to_string()]);
    let street_idx: usize = 1;
    assert_eq!(g.assets[street_idx].owner, None);

    // buy Brown suburb
    g.execute_turn(Dice::new(1, 0)); // Tycoon moves to Mediterranean Avenue

    // try buy hotel
    actions::buy_hotel(&mut g, 0, street_idx);
    assert_eq!(g.assets[street_idx].house_num(), 0);
    assert_eq!(g.assets[street_idx].has_hotel(), false);

    g.execute_turn(Dice::new(2, 0)); // Tycoon moves to Baltic Avenue
    // try buy hotel
    actions::buy_hotel(&mut g, 0, 3);
    assert_eq!(g.assets[street_idx].house_num(), 0);
    assert_eq!(g.assets[street_idx].has_hotel(), false);
}

#[test]
fn buy_then_sell_hotel() {
    // buy all possible houses for suburb
    let mut g = init(vec!["Tycoon".to_string()]);

    // buy brown squares
    g.execute_turn(Dice::new(1, 0));
    g.execute_turn(Dice::new(2, 0));

    // put houses on all squares
    for _i in 0..4 {
        // buy another house in Mediterranean then Baltic
        actions::buy_house(&mut g, 0, 1);
        actions::buy_house(&mut g, 0, 3);
    }

    // double check, both streets should have 4 houses
    assert_eq!(g.assets[1].house_num(), 4);
    assert_eq!(g.assets[3].house_num(), 4);

    // buying hotels succeeds
    actions::buy_hotel(&mut g, 0, 1);
    assert_eq!(g.assets[1].has_hotel(), true);
    assert_eq!(g.calculate_rent(1, Dice::new(3, 0)).unwrap(), 250);

    actions::buy_hotel(&mut g, 0, 3);
    assert_eq!(g.assets[3].has_hotel(), true);
    assert_eq!(g.calculate_rent(3, Dice::new(3, 0)).unwrap(), 450);

    // Selling hotels succeeds
    actions::sell_hotel(&mut g, 0, 3);
    assert_eq!(g.assets[3].has_hotel(), false);
    assert_eq!(g.calculate_rent(3, Dice::new(3, 0)).unwrap(), 320);

    actions::sell_hotel(&mut g, 0, 1);
    assert_eq!(g.assets[1].has_hotel(), false);
    assert_eq!(g.calculate_rent(1, Dice::new(3, 0)).unwrap(), 160);
}

#[test]
fn check_house_eligibility() {
    // buy all possible houses for suburb
    let mut g = init(vec!["Tycoon".to_string()]);
    assert_eq!(g.assets[1].owner, None);

    g.execute_turn(Dice::new(1, 0)); // buys mediterranean
    let owner_idx = g.players[0].turn_idx();
    assert_eq!(g.player_owns_suburb(owner_idx, 1), false);
    assert_eq!(g.street_eligible_for_house(1), true);
    assert_eq!(g.street_eligible_for_hotel(1), false);
    assert_eq!(g.player_owns_suburb(owner_idx, 3), false);
    assert_eq!(g.street_eligible_for_house(3), true);
    assert_eq!(g.street_eligible_for_hotel(3), false);

    g.execute_turn(Dice::new(2, 0)); // buys Baltic
    assert_eq!(g.player_owns_suburb(owner_idx, 1), true);
    assert_eq!(g.street_eligible_for_house(1), true); // can now have houses
    assert_eq!(g.street_eligible_for_hotel(1), false);
    assert_eq!(g.player_owns_suburb(owner_idx, 3), true);
    assert_eq!(g.street_eligible_for_house(3), true);
    assert_eq!(g.street_eligible_for_hotel(3), false);

    // buy house on mediterranean
    actions::buy_house(&mut g, 0, 1);
    assert_eq!(g.street_eligible_for_house(1), false); // cannot buy 2nd house

    // buy house on baltic
    actions::buy_house(&mut g, 0, 3);

    // buy second house on mediterranean
    assert_eq!(g.street_eligible_for_house(1), true); // now eligible
    actions::buy_house(&mut g, 0, 1);
    assert_eq!(g.street_eligible_for_house_sale(1), true);

    // cannot sell house on baltic
    assert_eq!(g.street_eligible_for_house_sale(3), false);
}

#[test]
fn game_roll_dice() {
    let dice = Dice::new(2, 3);
    assert_eq!(dice.roll, (2, 3));
    assert_eq!(dice.num_rolls, 1);
    assert_eq!(dice.cumulative_sum, 5);
    assert_eq!(dice.is_double(), false);

    let mut dice = Dice::new(3, 3);
    assert_eq!(dice.roll, (3, 3));
    assert_eq!(dice.num_rolls, 1);
    assert_eq!(dice.cumulative_sum, 6);
    assert_eq!(dice.is_double(), true);

    dice.reroll(Dice::new(5, 2));
    assert_eq!(dice.roll, (5, 2));
    assert_eq!(dice.num_rolls, 2);
    assert_eq!(dice.cumulative_sum, 13);
    assert_eq!(dice.is_double(), false);
}

#[test]
fn player_in_trouble() {
    // player is in trouble when can't pay their bill
    // move player to income tax 8 times. on the last time, they're in trouble
    let mut g = init(vec!["Chancer".to_string()]);
    g.execute_turn(Dice::new(4, 0)); // income tax pay 200
    for i in 1..8 {
        assert_eq!(g.players[0].cash(), 1500 - 200 * i);
        g.execute_turn(Dice::new(40, 0)); // income tax, pay 200
    }

    assert_eq!(g.players[0].cash(), 100); // didn't pay yet
    assert_eq!(g.players[0].is_in_trouble(), true); // now in trouble
}

#[test]
fn player_on_mortgaged_property() {
    let mut g = init(vec!["A".to_string(), "B".to_string()]);
    let street_idx = 3;

    g.execute_turn(Dice::new(1, 2)); // buy baltic
    assert_eq!(g.assets[street_idx].owner.unwrap(), 0);
    // mortgage Baltic
    actions::mortgage_street(&mut g, 0, street_idx);
    assert_eq!(g.assets[street_idx].is_mortgaged(), true);

    // Player B lands on baltic and pays no rent
    g.set_active_player(1);
    g.execute_turn(Dice::new(1, 2)); // land on baltic
    assert_eq!(g.assets[street_idx].owner.unwrap(), 0);
    assert_eq!(g.players[1].cash(), 1500);
}

#[test]
fn execute_card_movement() {
    let mut g = init(vec!["A".to_string()]);
    g.execute_turn(Dice::new(1, 2));
    assert_eq!(g.players[0].position(), 3);

    g.execute_card(&Card::new("test", CardAction::Movement, None, Some(10)));
    assert_eq!(g.players[0].position(), 10);
    assert_eq!(g.players[0].cash(), 1440);

    // advance to GO, only get $200
    g.execute_card(&Card::new("test", CardAction::Movement, None, Some(0)));
    assert_eq!(g.players[0].position(), 0);
    assert_eq!(g.players[0].cash(), 1640);
}

#[test]
fn execute_card_relative_movement() {
    let mut g = init(vec!["A".to_string()]);
    // keep the destination of the second move deterministic: the wrap
    // lands on a Community Chest square, which draws from this deck
    g.community_cards = vec![Card::new(
        "Collect $10",
        CardAction::Payment,
        Some(-10),
        None,
    )];
    g.execute_turn(Dice::new(1, 2));
    assert_eq!(g.players[0].position(), 3);

    g.execute_card(&Card::new("test", CardAction::RelativeMovement, None, Some(3)));
    assert_eq!(g.players[0].position(), 6);

    g.execute_card(&Card::new("test", CardAction::RelativeMovement, None, Some(36)));
    assert_eq!(g.players[0].position(), 2);
}

#[test]
fn execute_card_payment() {
    let mut g = init(vec!["A".to_string()]);
    g.execute_turn(Dice::new(1, 3));
    assert_eq!(g.players[0].cash(), 1300);

    g.execute_card(&Card::new("test", CardAction::Payment, Some(100), None));
    assert_eq!(g.players[0].cash(), 1200);

    g.execute_card(&Card::new("test", CardAction::Payment, Some(-50), None));
    assert_eq!(g.players[0].cash(), 1250);
}

#[test]
fn execute_card_jail() {
    let mut g = init(vec!["A".to_string()]);
    g.execute_turn(Dice::new(1, 3));
    assert_eq!(g.players[0].cash(), 1300);

    g.execute_card(&Card::new("test", CardAction::Jail, None, None));
    assert_eq!(g.players[0].is_in_jail(), true);
    assert_eq!(g.players[0].num_get_out_of_jail_cards(), 0);

    g.execute_card(&Card::new("test", CardAction::JailRelease, None, None));
    assert_eq!(g.players[0].is_in_jail(), true);
    assert_eq!(g.players[0].num_get_out_of_jail_cards(), 1);
}

#[test]
fn execute_card_repairs() {
    // buy a hotel
    let mut g = init(vec!["Tycoon".to_string()]);

    // buy brown squares
    g.execute_turn(Dice::new(1, 0));
    g.execute_turn(Dice::new(2, 0));

    // put houses on all squares
    for _i in 0..4 {
        // buy another house in Mediterranean then Baltic
        actions::buy_house(&mut g, 0, 1);
        actions::buy_house(&mut g, 0, 3);
    }

    // double check, both streets should have 4 houses
    assert_eq!(g.assets[1].house_num(), 4);
    assert_eq!(g.assets[3].house_num(), 4);

    // buying a hotel succeeds
    actions::buy_hotel(&mut g, 0, 1);
    assert_eq!(g.assets[1].has_hotel(), true);
    assert_eq!(g.players[0].cash(), 930);

    // now calculate repairs bill for 4 houses and 1 hotel
    g.execute_card(&Card::new("test", CardAction::Repairs, Some(2), Some(100))); // total 108
    assert_eq!(g.players[0].cash(), 822);

    g.execute_card(&Card::new("test", CardAction::Repairs, Some(100), Some(3))); // total 403
    assert_eq!(g.players[0].cash(), 419);
}
