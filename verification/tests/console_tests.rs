use monopoly::console::{get_dice_roll, get_player_num};

#[test]
fn test_dice_roll() {
    assert_eq!(get_dice_roll("Yo".to_string()), Err(()));
    assert_eq!(get_dice_roll("2.3".to_string()), Err(()));
    assert_eq!(get_dice_roll("1".to_string()), Err(()));
    assert_eq!(get_dice_roll("2".to_string()), Ok(2));
    assert_eq!(get_dice_roll("12".to_string()), Ok(12));
    assert_eq!(get_dice_roll("13".to_string()), Err(()));
}

#[test]
fn test_player_num() {
    assert_eq!(get_player_num("Yo".to_string()), Err(()));
    assert_eq!(get_player_num("2.3".to_string()), Err(()));
    assert_eq!(get_player_num("1".to_string()), Err(()));
    assert_eq!(get_player_num("2".to_string()), Ok(2));
    assert_eq!(get_player_num("8".to_string()), Ok(8));
    assert_eq!(get_player_num("9".to_string()), Err(()));
}
