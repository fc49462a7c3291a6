//! Card deck operations.  A deck is a circular queue: the top card is
//! drawn, executed and pushed to the bottom; when execution fails, the card
//! is returned to the top instead, so the same obligation is retried.
//! Shuffling delegates the choice of order to the `rand` crate and is the
//! one trusted call of this crate.

use vstd::prelude::*;
use vstd::seq_lib::group_to_multiset_ensures;
use rand::seq::SliceRandom;
use crate::card::Card;

verus! {

/// Remove and return the top card of the deck.
pub fn draw(cards: &mut Vec<Card>) -> (c: Card)
    requires
        old(cards)@.len() > 0,
    ensures
        c == old(cards)@[0],
        final(cards)@ == old(cards)@.drop_first(),
{
    let c = cards.remove(0);
    proof {
        assert(cards@ =~= old(cards)@.drop_first());
    }
    c
}

/// Append a fully executed card at the bottom of the deck.
pub fn requeue_bottom(cards: &mut Vec<Card>, card: Card)
    ensures
        final(cards)@ == old(cards)@.push(card),
{
    cards.push(card);
}

/// Return a card whose execution failed to the top of the deck, so the
/// next draw yields it again.
pub fn requeue_top(cards: &mut Vec<Card>, card: Card)
    ensures
        final(cards)@ == old(cards)@.insert(0, card),
{
    cards.insert(0, card);
}

/// Law: drawing the top card and requeuing it at the bottom returns the
/// deck to its original size and contents (as a multiset); drawing and
/// requeuing at the top restores the deck exactly, so the next draw yields
/// the very same card.
pub proof fn lemma_deck_round_trip(deck: Seq<Card>)
    requires
        deck.len() > 0,
    ensures
        deck.drop_first().push(deck[0]).len() == deck.len(),
        deck.drop_first().push(deck[0]).to_multiset() == deck.to_multiset(),
        deck.drop_first().insert(0, deck[0]) == deck,
{
    broadcast use group_to_multiset_ensures;

    assert(deck.drop_first() =~= deck.remove(0));
    assert(deck.to_multiset().contains(deck[0]));
    assert(deck.drop_first().push(deck[0]).to_multiset() =~= deck.to_multiset());
    assert(deck.drop_first().insert(0, deck[0]) =~= deck);
}

/// Relies on rand's `SliceRandom::shuffle` (a Fisher-Yates shuffle built
/// from in-place swaps): it permutes the slice, so afterwards the vector
/// holds exactly the elements it held before, in some order.
#[verifier::external_body]
fn shuffle_indices(v: &mut Vec<usize>)
    ensures
        final(v)@.to_multiset() == old(v)@.to_multiset(),
{
    v.shuffle(&mut rand::thread_rng());
}

/// Shuffle the deck of chance or community chest cards.  The order of the
/// result is chosen by the random permutation provider; the deck keeps
/// exactly the cards it had.
pub fn shuffle_cards(cards: &mut Vec<Card>)
    ensures
        final(cards)@.len() == old(cards)@.len(),
        final(cards)@.to_multiset() == old(cards)@.to_multiset(),
{
    broadcast use group_to_multiset_ensures;

    let n = cards.len();
    let mut idxs: Vec<usize> = Vec::new();
    let mut i: usize = 0;
    while i < n
        invariant
            i <= n,
            idxs@.len() == i,
            forall|k: int| 0 <= k < i ==> idxs@[k] == k,
        decreases n - i,
    {
        idxs.push(i);
        i = i + 1;
    }
    shuffle_indices(&mut idxs);
    proof {
        assert(idxs@.to_multiset().len() == idxs@.len());
        assert forall|k: int| 0 <= k < idxs@.len() implies idxs@[k] < n by {
            let x = idxs@[k];
            assert(idxs@.contains(x));
            assert(idxs@.to_multiset().count(x) > 0);
        }
    }
    let mut j: usize = 0;
    while j < idxs.len()
        invariant
            cards@.len() == n,
            cards@.to_multiset() == old(cards)@.to_multiset(),
            idxs@.len() == n,
            forall|k: int| 0 <= k < n ==> idxs@[k] < n,
            j <= n,
        decreases n - j,
    {
        let idx = idxs[j];
        let ghost before = cards@;
        let c = cards.remove(0);
        cards.insert(idx, c);
        proof {
            broadcast use group_to_multiset_ensures;
            broadcast use vstd::multiset::group_multiset_axioms;

            assert(before[0] == c);
            assert(before.contains(c));
            assert(before.to_multiset().count(c) > 0);
            assert(before.remove(0).to_multiset() == before.to_multiset().remove(c));
            assert(cards@.to_multiset() == before.remove(0).to_multiset().insert(c));
            assert(cards@.to_multiset() =~= before.to_multiset());
        }
        j = j + 1;
    }
}

} // verus!
