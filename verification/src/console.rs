//! Validators for the single-number console prompts: a dice total given
//! as one number, and the number of players at the table.

use vstd::prelude::*;
use crate::parse::{is_numeral, numeral_value, parse_u32, str_to_chars};

verus! {

/// What a one-number dice prompt answer means: a numeral between 2 and
/// 12, the range of two dice.
pub open spec fn spec_dice_total(s: Seq<char>) -> Result<i32, ()> {
    if is_numeral(s) && 2 <= numeral_value(s) <= 12 {
        Ok(numeral_value(s) as i32)
    } else {
        Err(())
    }
}

/// What a player-count prompt answer means: a numeral between 2 and 8.
pub open spec fn spec_player_num(s: Seq<char>) -> Result<i32, ()> {
    if is_numeral(s) && 2 <= numeral_value(s) <= 8 {
        Ok(numeral_value(s) as i32)
    } else {
        Err(())
    }
}

/// Get the dice roll from the user: validates that the input is a
/// number within range of two dice, between 2 and 12.
pub fn get_dice_roll(user_input: String) -> (r: Result<i32, ()>)
    ensures
        r == spec_dice_total(user_input@),
{
    let chars = str_to_chars(user_input.as_str());
    match parse_u32(&chars) {
        Some(v) => if 2 <= v && v <= 12 {
            Ok(v as i32)
        } else {
            Err(())
        },
        None => Err(()),
    }
}

/// Get the number of players: between 2 and 8.
pub fn get_player_num(user_input: String) -> (r: Result<i32, ()>)
    ensures
        r == spec_player_num(user_input@),
{
    let chars = str_to_chars(user_input.as_str());
    match parse_u32(&chars) {
        Some(v) => if 2 <= v && v <= 8 {
            Ok(v as i32)
        } else {
            Err(())
        },
        None => Err(()),
    }
}

} // verus!
