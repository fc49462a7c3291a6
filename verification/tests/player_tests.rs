use monopoly::player::{Asset, Player};

#[test]
fn advance_player() {
    let p = &mut Player::new("Test".to_string(), 1);
    assert_eq!(p.position, 0);
    p.advance(37, 40);
    assert_eq!(p.position, 37);
    p.advance(5, 40); // wrap around the board size (=40)
    assert_eq!(p.position, 2);
}

#[test]
fn transact_cash_rejects_uncovered_debit() {
    let p = &mut Player::new("Test".to_string(), 1);
    assert_eq!(p.transact_cash(500), Ok(()));
    assert_eq!(p.cash(), 2000);
    assert_eq!(p.transact_cash(-2000), Ok(()));
    assert_eq!(p.cash(), 0);
    assert_eq!(p.transact_cash(-1), Err(()));
    assert_eq!(p.cash(), 0);
}

#[test]
fn jail_card_and_bribe() {
    let p = &mut Player::new("Test".to_string(), 0);
    assert_eq!(p.redeem_jail_free_card(), Err(()));
    p.receive_jail_free_card();
    p.go_to_jail();
    assert_eq!(p.position(), 10);
    assert!(p.is_in_jail());
    assert_eq!(p.redeem_jail_free_card(), Ok(()));
    assert!(!p.is_in_jail());
    assert_eq!(p.num_get_out_of_jail_cards(), 0);

    p.go_to_jail();
    assert_eq!(p.bribe_guards(), Ok(()));
    assert!(!p.is_in_jail());
    assert_eq!(p.cash(), 1450);
}

#[test]
fn asset_building_rules() {
    let a = &mut Asset::new();
    a.owner = Some(0);
    assert!(a.buy_hotel().is_err()); // needs four houses first
    for _ in 0..4 {
        assert!(a.buy_house().is_ok());
    }
    assert_eq!(a.house_num(), 4);
    assert!(a.buy_house().is_err()); // a fifth house is refused
    assert!(a.buy_hotel().is_ok());
    assert!(a.has_hotel());
    assert!(a.buy_hotel().is_err()); // no second hotel
    a.sell_hotel();
    assert!(!a.has_hotel());
    assert_eq!(a.house_num(), 4); // four-house footing stays
    for _ in 0..4 {
        assert!(a.sell_house().is_ok());
    }
    assert!(a.sell_house().is_err()); // nothing left to sell
    assert!(a.has_buildings() == false);
}

#[test]
fn liquify_clears_everything() {
    let a = &mut Asset::new();
    a.owner = Some(2);
    a.buy_house().unwrap();
    a.mortgage();
    a.liquify();
    assert_eq!(a.owner, None);
    assert_eq!(a.house_num(), 0);
    assert!(!a.has_hotel());
    assert!(!a.is_mortgaged());
}
