use monopoly::dialog::{
    additional_action_choice, get_dice_roll, trouble_action_choice, user_quit, UserAction,
};
use monopoly::dice::Dice;

#[test]
fn dialog_roll_dice() {
    assert_eq!(get_dice_roll("Yo".to_string()), None);
    assert_eq!(get_dice_roll("2.3".to_string()), None);
    assert_eq!(get_dice_roll("1".to_string()), None);
    assert_eq!(get_dice_roll("13".to_string()), None);
    assert_eq!(get_dice_roll("a 4".to_string()), None);
    assert_eq!(get_dice_roll("0 4".to_string()), None);
    assert_eq!(get_dice_roll("7 4".to_string()), None);

    assert_eq!(get_dice_roll("1 1".to_string()), Some(Dice::new(1, 1).roll()));
    assert_eq!(get_dice_roll("6 6".to_string()), Some(Dice::new(6, 6).roll()));
    assert_eq!(get_dice_roll("3 4".to_string()), Some(Dice::new(3, 4).roll()));
}

#[test]
fn did_user_quit() {
    assert_eq!(user_quit("q"), true);
    assert_eq!(user_quit("Q"), true);
    assert_eq!(user_quit(" q "), true);
    assert_eq!(user_quit("i"), false);
    assert_eq!(user_quit("0"), false);
    assert_eq!(user_quit("qq"), false);
    assert_eq!(user_quit(""), false);
}

#[test]
fn menu_choices() {
    assert_eq!(additional_action_choice("0"), Some(UserAction::EndTurn));
    assert_eq!(additional_action_choice("1"), Some(UserAction::SellStreet));
    assert_eq!(additional_action_choice("2"), Some(UserAction::BuyHouse));
    assert_eq!(additional_action_choice("3"), Some(UserAction::SellHouse));
    assert_eq!(additional_action_choice("4"), Some(UserAction::BuyHotel));
    assert_eq!(additional_action_choice("5"), Some(UserAction::SellHotel));
    assert_eq!(additional_action_choice("6"), Some(UserAction::Mortgage));
    assert_eq!(additional_action_choice(" 7 "), Some(UserAction::Unmortgage));
    assert_eq!(additional_action_choice("8"), None);
    assert_eq!(additional_action_choice("07"), None);
    assert_eq!(additional_action_choice("hello"), None);

    assert_eq!(trouble_action_choice("0"), Some(UserAction::EndGame));
    assert_eq!(trouble_action_choice("1"), Some(UserAction::SellStreet));
    assert_eq!(trouble_action_choice("2"), Some(UserAction::SellHouse));
    assert_eq!(trouble_action_choice("3"), Some(UserAction::SellHotel));
    assert_eq!(trouble_action_choice("4"), Some(UserAction::Mortgage));
    assert_eq!(trouble_action_choice("5"), Some(UserAction::EndTurn));
    assert_eq!(trouble_action_choice("6"), None);
}
