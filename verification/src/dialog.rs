//! The pure side of the console dialogs: tokenizing a line of input,
//! reading a two-dice roll, recognising the quit sentinel and mapping a
//! menu choice to a user action.  The prompting and re-prompting loops
//! around these live with the front end.

use vstd::prelude::*;
use crate::parse::{is_numeral, numeral_value, parse_u32, str_to_chars};

verus! {

/// The actions a player can take through the between-turn menus.
#[derive(Eq, PartialEq, Structural, Debug, Clone, Copy)]
pub enum UserAction {
    BuyHouse,
    SellHouse,
    BuyHotel,
    SellHotel,
    Mortgage,
    Unmortgage,
    SellStreet,
    EndTurn,
    EndGame,
}

/// The whitespace that separates tokens of a line of input.
pub open spec fn is_space(c: char) -> bool {
    c == ' ' || c == '\t' || c == '\n' || c == '\r'
}

/// The whitespace-separated tokens of `s` from position `i` on, with
/// `cur` the partial token read so far.
pub open spec fn tokens_from(s: Seq<char>, i: int, cur: Seq<char>) -> Seq<Seq<char>>
    decreases s.len() - i,
{
    if i < 0 || i >= s.len() {
        if cur.len() > 0 {
            seq![cur]
        } else {
            Seq::empty()
        }
    } else if is_space(s[i]) {
        if cur.len() > 0 {
            seq![cur] + tokens_from(s, i + 1, Seq::empty())
        } else {
            tokens_from(s, i + 1, Seq::empty())
        }
    } else {
        tokens_from(s, i + 1, cur.push(s[i]))
    }
}

/// The whitespace-separated tokens of a line.
pub open spec fn tokens(s: Seq<char>) -> Seq<Seq<char>> {
    tokens_from(s, 0, Seq::empty())
}

/// What a dice prompt answer means: exactly two tokens, each a numeral
/// between 1 and 6, give the two die faces; anything else is invalid.
pub open spec fn spec_dice_roll(s: Seq<char>) -> Option<(u32, u32)> {
    let ts = tokens(s);
    if ts.len() != 2 {
        None
    } else if is_numeral(ts[0]) && 1 <= numeral_value(ts[0]) <= 6 && is_numeral(ts[1]) && 1
        <= numeral_value(ts[1]) <= 6 {
        Some((numeral_value(ts[0]) as u32, numeral_value(ts[1]) as u32))
    } else {
        None
    }
}

/// Split a line into its whitespace-separated tokens.
pub fn split_tokens(chars: &Vec<char>) -> (r: Vec<Vec<char>>)
    ensures
        r@.map_values(|t: Vec<char>| t@) == tokens(chars@),
{
    let ghost vf = |t: Vec<char>| t@;
    let n = chars.len();
    let mut r: Vec<Vec<char>> = Vec::new();
    let mut cur: Vec<char> = Vec::new();
    let mut i: usize = 0;
    while i < n
        invariant
            i <= n == chars@.len(),
            vf == (|t: Vec<char>| t@),
            tokens(chars@) == r@.map_values(vf) + tokens_from(chars@, i as int, cur@),
        decreases n - i,
    {
        let ghost gi = i as int;
        let ghost gcur = cur@;
        let ghost gmap = r@.map_values(vf);
        let c = chars[i];
        if c == ' ' || c == '\t' || c == '\n' || c == '\r' {
            if cur.len() > 0 {
                let ghost prev = r@;
                let done = cur;
                cur = Vec::new();
                r.push(done);
                proof {
                    assert(r@.map_values(vf) =~= prev.map_values(vf).push(done@));
                    assert(tokens_from(chars@, gi, gcur) == seq![gcur] + tokens_from(
                        chars@,
                        gi + 1,
                        Seq::empty(),
                    ));
                    assert(gmap + (seq![gcur] + tokens_from(chars@, gi + 1, Seq::empty()))
                        =~= gmap.push(gcur) + tokens_from(chars@, gi + 1, Seq::empty()));
                }
            } else {
                proof {
                    assert(tokens_from(chars@, gi, gcur) == tokens_from(
                        chars@,
                        gi + 1,
                        Seq::empty(),
                    ));
                    assert(cur@ =~= Seq::<char>::empty());
                }
            }
        } else {
            cur.push(c);
            proof {
                assert(tokens_from(chars@, gi, gcur) == tokens_from(
                    chars@,
                    gi + 1,
                    gcur.push(chars@[gi]),
                ));
            }
        }
        i = i + 1;
    }
    if cur.len() > 0 {
        let ghost prev = r@;
        let done = cur;
        r.push(done);
        proof {
            assert(r@.map_values(vf) =~= prev.map_values(vf).push(done@));
            assert(r@.map_values(vf) =~= tokens(chars@));
        }
    } else {
        proof {
            assert(r@.map_values(vf) =~= tokens(chars@));
        }
    }
    r
}

/// Get the dice roll from a line of user input: two whitespace-separated
/// numbers, each between 1 and 6.
pub fn get_dice_roll(user_input: String) -> (r: Option<(u32, u32)>)
    ensures
        r == spec_dice_roll(user_input@),
{
    let chars = str_to_chars(user_input.as_str());
    let toks = split_tokens(&chars);
    if toks.len() != 2 {
        return None;
    }
    proof {
        assert(toks@.map_values(|t: Vec<char>| t@)[0] == toks@[0]@);
        assert(toks@.map_values(|t: Vec<char>| t@)[1] == toks@[1]@);
    }
    let d1 = match parse_u32(&toks[0]) {
        Some(v) => v,
        None => {
            return None;
        },
    };
    let d2 = match parse_u32(&toks[1]) {
        Some(v) => v,
        None => {
            return None;
        },
    };
    if 1 <= d1 && d1 <= 6 && 1 <= d2 && d2 <= 6 {
        Some((d1, d2))
    } else {
        None
    }
}

/// Whether a line of input is the quit sentinel: a lone `q` or `Q`.
pub open spec fn spec_user_quit(s: Seq<char>) -> bool {
    tokens(s) == seq![seq!['q']] || tokens(s) == seq![seq!['Q']]
}

/// Recognise the explicit quit/cancel sentinel that aborts a menu
/// action.
pub fn user_quit(user_input: &str) -> (r: bool)
    ensures
        r == spec_user_quit(user_input@),
{
    let chars = str_to_chars(user_input);
    let toks = split_tokens(&chars);
    proof {
        if toks@.len() == 1 {
            assert(toks@.map_values(|t: Vec<char>| t@)[0] == toks@[0]@);
        }
    }
    if toks.len() != 1 {
        proof {
            assert(tokens(user_input@).len() != 1);
            assert(!spec_user_quit(user_input@));
        }
        return false;
    }
    let t = &toks[0];
    let r = t.len() == 1 && (t[0] == 'q' || t[0] == 'Q');
    proof {
        let ts = tokens(user_input@);
        assert(ts[0] == t@);
        if r {
            if t@[0] == 'q' {
                assert(t@ =~= seq!['q']);
                assert(ts =~= seq![seq!['q']]);
            } else {
                assert(t@ =~= seq!['Q']);
                assert(ts =~= seq![seq!['Q']]);
            }
        } else {
            if ts == seq![seq!['q']] {
                assert(t@ == seq!['q']);
            }
            if ts == seq![seq!['Q']] {
                assert(t@ == seq!['Q']);
            }
        }
    }
    r
}

/// What a one-character menu answer selects, when the line holds exactly
/// that character.
pub open spec fn menu_char(s: Seq<char>) -> Option<char> {
    let ts = tokens(s);
    if ts.len() == 1 && ts[0].len() == 1 {
        Some(ts[0][0])
    } else {
        None
    }
}

/// The free-form menu between turns: which action a line of input
/// selects, if any.
pub open spec fn spec_additional_action(s: Seq<char>) -> Option<UserAction> {
    match menu_char(s) {
        Some(c) => match c {
            '0' => Some(UserAction::EndTurn),
            '1' => Some(UserAction::SellStreet),
            '2' => Some(UserAction::BuyHouse),
            '3' => Some(UserAction::SellHouse),
            '4' => Some(UserAction::BuyHotel),
            '5' => Some(UserAction::SellHotel),
            '6' => Some(UserAction::Mortgage),
            '7' => Some(UserAction::Unmortgage),
            _ => None,
        },
        None => None,
    }
}

/// The menu of a player in trouble: which action a line of input
/// selects, if any.
pub open spec fn spec_trouble_action(s: Seq<char>) -> Option<UserAction> {
    match menu_char(s) {
        Some(c) => match c {
            '1' => Some(UserAction::SellStreet),
            '2' => Some(UserAction::SellHouse),
            '3' => Some(UserAction::SellHotel),
            '4' => Some(UserAction::Mortgage),
            '5' => Some(UserAction::EndTurn),
            '0' => Some(UserAction::EndGame),
            _ => None,
        },
        None => None,
    }
}

/// The single selecting character of a menu answer, if the line holds
/// exactly one one-character token.
fn read_menu_char(user_input: &str) -> (r: Option<char>)
    ensures
        r == menu_char(user_input@),
{
    let chars = str_to_chars(user_input);
    let toks = split_tokens(&chars);
    proof {
        if toks@.len() == 1 {
            assert(toks@.map_values(|t: Vec<char>| t@)[0] == toks@[0]@);
        }
    }
    if toks.len() != 1 {
        return None;
    }
    let t = &toks[0];
    if t.len() != 1 {
        return None;
    }
    Some(t[0])
}

/// Map an answer to the between-turns menu to the action it selects.
pub fn additional_action_choice(user_input: &str) -> (r: Option<UserAction>)
    ensures
        r == spec_additional_action(user_input@),
{
    match read_menu_char(user_input) {
        Some(c) => match c {
            '0' => Some(UserAction::EndTurn),
            '1' => Some(UserAction::SellStreet),
            '2' => Some(UserAction::BuyHouse),
            '3' => Some(UserAction::SellHouse),
            '4' => Some(UserAction::BuyHotel),
            '5' => Some(UserAction::SellHotel),
            '6' => Some(UserAction::Mortgage),
            '7' => Some(UserAction::Unmortgage),
            _ => None,
        },
        None => None,
    }
}

/// Map an answer to the trouble menu to the action it selects.
pub fn trouble_action_choice(user_input: &str) -> (r: Option<UserAction>)
    ensures
        r == spec_trouble_action(user_input@),
{
    match read_menu_char(user_input) {
        Some(c) => match c {
            '1' => Some(UserAction::SellStreet),
            '2' => Some(UserAction::SellHouse),
            '3' => Some(UserAction::SellHotel),
            '4' => Some(UserAction::Mortgage),
            '5' => Some(UserAction::EndTurn),
            '0' => Some(UserAction::EndGame),
            _ => None,
        },
        None => None,
    }
}

} // verus!
