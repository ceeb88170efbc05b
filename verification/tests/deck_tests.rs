use blackguard::card::{Kind, Suit};
use blackguard::deck::{build_deck, shuffled_deck, DECK_SIZE};

#[test]
fn deck_has_44_cards() {
    assert_eq!(build_deck().len(), 44);
}

#[test]
fn composition_is_correct() {
    let deck = build_deck();
    let monsters = deck.iter().filter(|c| c.kind() == Kind::Monster).count();
    let weapons = deck.iter().filter(|c| c.kind() == Kind::Weapon).count();
    let potions = deck.iter().filter(|c| c.kind() == Kind::Potion).count();
    assert_eq!(monsters, 26);
    assert_eq!(weapons, 9);
    assert_eq!(potions, 9);
}

#[test]
fn no_red_face_cards_or_red_aces() {
    let deck = build_deck();
    for c in &deck {
        if matches!(c.suit, Suit::Diamonds | Suit::Hearts) {
            assert!(c.rank <= 10, "red suit {:?} should not have rank {}", c.suit, c.rank);
        }
    }
}

#[test]
fn no_duplicate_cards() {
    let deck = build_deck();
    let mut seen = std::collections::HashSet::new();
    for c in &deck {
        assert!(seen.insert((c.suit, c.rank)), "duplicate card {c:?}");
    }
}

#[test]
fn same_seed_same_order() {
    assert_eq!(shuffled_deck(42), shuffled_deck(42));
}

#[test]
fn different_seeds_usually_differ() {
    assert_ne!(shuffled_deck(1), shuffled_deck(2));
}

#[test]
fn shuffle_preserves_the_multiset() {
    let mut a = build_deck();
    let mut b = shuffled_deck(7);
    a.sort_by_key(|c| (c.suit as u8, c.rank));
    b.sort_by_key(|c| (c.suit as u8, c.rank));
    assert_eq!(a, b);
}

#[test]
fn build_deck_order_runs_by_suit_then_rank() {
    let deck = build_deck();
    assert_eq!(deck.len(), DECK_SIZE);
    assert_eq!((deck[0].suit, deck[0].rank), (Suit::Spades, 2));
    assert_eq!((deck[12].suit, deck[12].rank), (Suit::Spades, 14));
    assert_eq!((deck[13].suit, deck[13].rank), (Suit::Clubs, 2));
    assert_eq!((deck[26].suit, deck[26].rank), (Suit::Diamonds, 2));
    assert_eq!((deck[34].suit, deck[34].rank), (Suit::Diamonds, 10));
    assert_eq!((deck[35].suit, deck[35].rank), (Suit::Hearts, 2));
    assert_eq!((deck[43].suit, deck[43].rank), (Suit::Hearts, 10));
}

#[test]
fn shuffling_changes_the_order() {
    assert_ne!(shuffled_deck(7), build_deck());
}
