//! Building and shuffling the 44-card Scoundrel dungeon deck.

use vstd::prelude::*;

use rand::rngs::StdRng;
use rand::seq::SliceRandom;
use rand::SeedableRng;

use crate::card::{Card, Suit};

verus! {

/// Total number of cards in the dungeon.
pub const DECK_SIZE: usize = 44;

/// The ordered dungeon deck: Spades 2-14, Clubs 2-14, Diamonds 2-10,
/// Hearts 2-10, each run in increasing rank.
pub open spec fn standard_deck() -> Seq<Card> {
    Seq::new(
        44,
        |i: int|
            if i < 13 {
                Card { suit: Suit::Spades, rank: (i + 2) as u8 }
            } else if i < 26 {
                Card { suit: Suit::Clubs, rank: (i - 11) as u8 }
            } else if i < 35 {
                Card { suit: Suit::Diamonds, rank: (i - 24) as u8 }
            } else {
                Card { suit: Suit::Hearts, rank: (i - 33) as u8 }
            },
    )
}

/// Push the cards of `suit` with ranks `2..=top` onto `deck`.
fn push_suit(deck: &mut Vec<Card>, suit: Suit, top: u8)
    requires
        2 <= top <= 14,
    ensures
        final(deck)@ == old(deck)@ + Seq::new((top - 1) as nat, |i: int| Card { suit, rank: (i + 2) as u8 }),
{
    let ghost start = deck@;
    let mut rank: u8 = 2;
    while rank <= top
        invariant
            2 <= rank <= top + 1,
            top <= 14,
            deck@ == start + Seq::new((rank - 2) as nat, |i: int| Card { suit, rank: (i + 2) as u8 }),
        decreases top + 1 - rank,
    {
        deck.push(Card::new(suit, rank));
        proof {
            assert(Seq::new((rank - 1) as nat, |i: int| Card { suit, rank: (i + 2) as u8 })
                =~= Seq::new((rank - 2) as nat, |i: int| Card { suit, rank: (i + 2) as u8 }).push(Card { suit, rank }));
        }
        rank = rank + 1;
    }
}

/// Build the ordered 44-card deck:
///
/// * Spades and Clubs: ranks 2-14 (13 each, 26 monsters)
/// * Diamonds and Hearts: ranks 2-10 (9 each: the red faces and red aces are
///   removed)
pub fn build_deck() -> (deck: Vec<Card>)
    ensures
        deck@ == standard_deck(),
{
    let mut deck = Vec::with_capacity(DECK_SIZE);
    push_suit(&mut deck, Suit::Spades, 14);
    push_suit(&mut deck, Suit::Clubs, 14);
    push_suit(&mut deck, Suit::Diamonds, 10);
    push_suit(&mut deck, Suit::Hearts, 10);
    assert(deck@ =~= standard_deck());
    deck
}

#[verifier::external_type_specification]
#[verifier::external_body]
pub struct ExStdRng(StdRng);

/// Calls `rand::SeedableRng::seed_from_u64` for `StdRng`: a generator seeded
/// from `seed`. Nothing is stated of the generator's state, which rand's
/// documentation calls non-portable across versions and platforms.
#[verifier::external_body]
fn seeded_rng(seed: u64) -> StdRng {
    StdRng::seed_from_u64(seed)
}

/// Calls `rand::seq::SliceRandom::shuffle` on `deck`: the cards are permuted
/// in place, so the multiset of cards is unchanged. Which permutation comes
/// out depends on the generator and is not stated.
#[verifier::external_body]
fn shuffle_cards(deck: &mut Vec<Card>, rng: &mut StdRng)
    ensures
        final(deck)@.to_multiset() == old(deck)@.to_multiset(),
{
    deck.shuffle(rng);
}

/// A deck shuffled from `seed`: a permutation of the standard deck. The
/// order depends on the seed through rand's `StdRng`.
pub fn shuffled_deck(seed: u64) -> (deck: Vec<Card>)
    ensures
        deck@.to_multiset() == standard_deck().to_multiset(),
        deck@.len() == DECK_SIZE,
{
    let mut deck = build_deck();
    let mut rng = seeded_rng(seed);
    shuffle_cards(&mut deck, &mut rng);
    proof {
        deck@.to_multiset_ensures();
        standard_deck().to_multiset_ensures();
    }
    deck
}


/// The run of cards of `suit` with ranks `2..n+1`.
pub open spec fn suit_run(suit: Suit, n: nat) -> Seq<Card> {
    Seq::new(n, |i: int| Card { suit, rank: (i + 2) as u8 })
}

/// Filtering a sequence with a predicate that all its elements satisfy keeps
/// it whole; with one that none satisfy, empties it.
proof fn lemma_filter_uniform(s: Seq<Card>, pred: spec_fn(Card) -> bool)
    ensures
        (forall|i: int| 0 <= i < s.len() ==> pred(#[trigger] s[i])) ==> s.filter(pred).len() == s.len(),
        (forall|i: int| 0 <= i < s.len() ==> !pred(#[trigger] s[i])) ==> s.filter(pred).len() == 0,
    decreases s.len(),
{
    reveal(Seq::filter);
    if s.len() > 0 {
        lemma_filter_uniform(s.drop_last(), pred);
        if forall|i: int| 0 <= i < s.len() ==> pred(#[trigger] s[i]) {
            assert forall|i: int| 0 <= i < s.drop_last().len() implies pred(#[trigger] s.drop_last()[i]) by {
                assert(pred(s[i]));
            }
        }
        if forall|i: int| 0 <= i < s.len() ==> !pred(#[trigger] s[i]) {
            assert forall|i: int| 0 <= i < s.drop_last().len() implies !pred(#[trigger] s.drop_last()[i]) by {
                assert(!pred(s[i]));
            }
        }
    }
}

/// The number of cards of `deck` whose suit has role `kind`.
pub open spec fn count_kind(deck: Seq<Card>, kind: crate::card::Kind) -> nat {
    deck.filter(|c: Card| c.suit.spec_kind() == kind).len()
}

/// The standard deck has 44 distinct cards, all of rank 2 to 14, with no red
/// card above 10: 26 monsters, 9 weapons and 9 potions.
pub proof fn lemma_standard_deck_composition()
    ensures
        standard_deck().len() == DECK_SIZE,
        standard_deck().no_duplicates(),
        forall|i: int| 0 <= i < standard_deck().len() ==> 2 <= #[trigger] standard_deck()[i].rank <= 14,
        forall|i: int|
            0 <= i < standard_deck().len() && (standard_deck()[i].suit == Suit::Diamonds
                || standard_deck()[i].suit == Suit::Hearts) ==> #[trigger] standard_deck()[i].rank <= 10,
        count_kind(standard_deck(), crate::card::Kind::Monster) == 26,
        count_kind(standard_deck(), crate::card::Kind::Weapon) == 9,
        count_kind(standard_deck(), crate::card::Kind::Potion) == 9,
{
    let d = standard_deck();
    let sp = suit_run(Suit::Spades, 13);
    let cl = suit_run(Suit::Clubs, 13);
    let di = suit_run(Suit::Diamonds, 9);
    let he = suit_run(Suit::Hearts, 9);
    assert(d =~= sp + cl + di + he);
    assert forall|i: int, j: int| 0 <= i < d.len() && 0 <= j < d.len() && i != j implies d[i] != d[j] by {
    }
    let kinds = seq![crate::card::Kind::Monster, crate::card::Kind::Weapon, crate::card::Kind::Potion];
    assert forall|k: int| 0 <= k < 3 implies {
        let kind = #[trigger] kinds[k];
        count_kind(d, kind) == (if kind == crate::card::Kind::Monster {
            26nat
        } else {
            9nat
        })
    } by {
        let kind = kinds[k];
        let pred = |c: Card| c.suit.spec_kind() == kind;
        lemma_filter_uniform(sp, pred);
        lemma_filter_uniform(cl, pred);
        lemma_filter_uniform(di, pred);
        lemma_filter_uniform(he, pred);
        Seq::filter_distributes_over_add(sp, cl, pred);
        Seq::filter_distributes_over_add(sp + cl, di, pred);
        Seq::filter_distributes_over_add(sp + cl + di, he, pred);
    }
    assert(kinds[0] == crate::card::Kind::Monster);
    assert(kinds[1] == crate::card::Kind::Weapon);
    assert(kinds[2] == crate::card::Kind::Potion);
}

} // verus!
