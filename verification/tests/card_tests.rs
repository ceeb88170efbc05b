use blackguard::card::{Card, Kind, Suit};

#[test]
fn roles_follow_suit() {
    assert_eq!(Card::new(Suit::Spades, 5).kind(), Kind::Monster);
    assert_eq!(Card::new(Suit::Clubs, 14).kind(), Kind::Monster);
    assert_eq!(Card::new(Suit::Diamonds, 7).kind(), Kind::Weapon);
    assert_eq!(Card::new(Suit::Hearts, 2).kind(), Kind::Potion);
}

#[test]
fn rank_labels() {
    assert_eq!(Card::new(Suit::Spades, 10).rank_label(), "10");
    assert_eq!(Card::new(Suit::Spades, 11).rank_label(), "J");
    assert_eq!(Card::new(Suit::Spades, 14).rank_label(), "A");
}

#[test]
fn glyphs() {
    assert_eq!(Suit::Hearts.glyph(), '♥');
    assert_eq!(Suit::Spades.glyph(), '♠');
    assert_eq!(Suit::Diamonds.glyph(), '♦');
    assert_eq!(Suit::Clubs.glyph(), '♣');
}

#[test]
fn every_rank_label() {
    let expected = ["2", "3", "4", "5", "6", "7", "8", "9", "10", "J", "Q", "K", "A"];
    for (i, label) in expected.iter().enumerate() {
        assert_eq!(Card::new(Suit::Clubs, i as u8 + 2).rank_label(), *label);
    }
    assert_eq!(Card { suit: Suit::Clubs, rank: 15 }.rank_label(), "?");
    assert_eq!(Card { suit: Suit::Clubs, rank: 1 }.rank_label(), "?");
}

#[test]
fn kind_predicates_agree() {
    let m = Card::new(Suit::Clubs, 9);
    let w = Card::new(Suit::Diamonds, 9);
    let p = Card::new(Suit::Hearts, 9);
    assert!(m.is_monster() && !m.is_weapon() && !m.is_potion());
    assert!(!w.is_monster() && w.is_weapon() && !w.is_potion());
    assert!(!p.is_monster() && !p.is_weapon() && p.is_potion());
    assert_eq!(m.value(), 9);
    assert_eq!(Suit::Diamonds.kind(), Kind::Weapon);
    assert_eq!(Suit::Clubs.kind(), Kind::Monster);
}
