//! Chance and Community Chest cards: a description, an action kind and the
//! action's parameters.

use vstd::prelude::*;

verus! {

/// What a drawn card does to the player who drew it.
#[derive(Eq, PartialEq, Structural, Debug, Clone, Copy)]
pub enum CardAction {
    /// Move forward to a fixed target square, wrapping through GO.
    Movement,
    /// Move forward by a fixed number of squares.
    RelativeMovement,
    /// Pay (positive amount) or receive (negative amount) a flat sum.
    Payment,
    /// Go directly to jail.
    Jail,
    /// Receive one get-out-of-jail-free card.
    JailRelease,
    /// Pay a rate per house and a rate per hotel over all owned squares.
    Repairs,
}

/// Chance or Community chest card.
pub struct Card {
    pub description: String,
    pub action: CardAction,
    pub amount: Option<i32>,
    pub square: Option<u32>,
}

impl Card {
    /// A card is well formed when the parameters its action kind reads are
    /// present and small enough that executing the card cannot overflow any
    /// balance arithmetic.
    pub open spec fn wf(&self) -> bool {
        match self.action {
            CardAction::Movement => self.square matches Some(t) && t < 40,
            CardAction::RelativeMovement => self.square matches Some(m) && m <= 400_000_000,
            CardAction::Payment => self.amount matches Some(a) && -1_000_000 <= a <= 1_000_000,
            CardAction::Jail => true,
            CardAction::JailRelease => true,
            CardAction::Repairs => (self.amount matches Some(a) && 0 <= a <= 1_000_000)
                && (self.square matches Some(h) && h <= 1_000_000),
        }
    }

    pub fn new(description: &str, action: CardAction, amount: Option<i32>, square: Option<
        u32,
    >) -> (r: Self)
        ensures
            r.description@ == description@,
            r.action == action,
            r.amount == amount,
            r.square == square,
    {
        Self { description: description.to_owned(), action, amount, square }
    }

    /// Return the amount the player has to pay. Player receives cash for
    /// negative amounts.
    pub fn amount(&self) -> (r: Option<i32>)
        ensures
            r == self.amount,
    {
        self.amount
    }

    pub fn description(&self) -> (r: &str)
        ensures
            r@ == self.description@,
    {
        self.description.as_str()
    }

    pub fn square(&self) -> (r: Option<u32>)
        ensures
            r == self.square,
    {
        self.square
    }

    pub fn action(&self) -> (r: &CardAction)
        ensures
            r == self.action,
    {
        &self.action
    }
}

} // verus!
