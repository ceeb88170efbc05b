//! Cards, suits, and their in-game roles.
//!
//! Scoundrel uses a 44-card deck (a standard deck with the red face cards and
//! red aces removed). A card's suit determines its role:
//!
//! * Spades / Clubs  -> monsters (values 2-14)
//! * Diamonds        -> weapons (values 2-10)
//! * Hearts          -> health potions (values 2-10)

use vstd::prelude::*;

verus! {

/// The four suits.
#[derive(Debug, Clone, Copy, PartialEq, Eq, Hash, Structural)]
pub enum Suit {
    Spades,
    Clubs,
    Diamonds,
    Hearts,
}

/// What a card does in the dungeon, derived purely from its suit.
#[derive(Debug, Clone, Copy, PartialEq, Eq, Structural)]
pub enum Kind {
    Monster,
    Weapon,
    Potion,
}

impl Suit {
    /// The role a suit plays: black suits are monsters, diamonds weapons,
    /// hearts potions.
    pub open spec fn spec_kind(self) -> Kind {
        match self {
            Suit::Spades | Suit::Clubs => Kind::Monster,
            Suit::Diamonds => Kind::Weapon,
            Suit::Hearts => Kind::Potion,
        }
    }

    /// The pip glyph of a suit.
    pub open spec fn spec_glyph(self) -> char {
        match self {
            Suit::Spades => '♠',
            Suit::Clubs => '♣',
            Suit::Diamonds => '♦',
            Suit::Hearts => '♥',
        }
    }

    /// The role this suit plays in the game.
    #[verifier::when_used_as_spec(spec_kind)]
    pub fn kind(self) -> (k: Kind)
        ensures
            k == self.spec_kind(),
    {
        match self {
            Suit::Spades | Suit::Clubs => Kind::Monster,
            Suit::Diamonds => Kind::Weapon,
            Suit::Hearts => Kind::Potion,
        }
    }

    /// The Unicode pip glyph for this suit.
    #[verifier::when_used_as_spec(spec_glyph)]
    pub fn glyph(self) -> (g: char)
        ensures
            g == self.spec_glyph(),
    {
        match self {
            Suit::Spades => '♠',
            Suit::Clubs => '♣',
            Suit::Diamonds => '♦',
            Suit::Hearts => '♥',
        }
    }
}

/// A single playing card. `rank` is the game value: 2-10 face value,
/// J=11, Q=12, K=13, A=14.
#[derive(Debug, Clone, Copy, PartialEq, Eq, Hash, Structural)]
pub struct Card {
    pub suit: Suit,
    pub rank: u8,
}

/// The label printed on a card face for a rank: "2".."10", "J", "Q", "K",
/// "A", and "?" for anything outside 2-14.
pub open spec fn rank_text(rank: u8) -> Seq<char> {
    if rank == 2 { "2"@ }
    else if rank == 3 { "3"@ }
    else if rank == 4 { "4"@ }
    else if rank == 5 { "5"@ }
    else if rank == 6 { "6"@ }
    else if rank == 7 { "7"@ }
    else if rank == 8 { "8"@ }
    else if rank == 9 { "9"@ }
    else if rank == 10 { "10"@ }
    else if rank == 11 { "J"@ }
    else if rank == 12 { "Q"@ }
    else if rank == 13 { "K"@ }
    else if rank == 14 { "A"@ }
    else { "?"@ }
}

impl Card {
    pub open spec fn spec_value(self) -> u8 {
        self.rank
    }

    pub open spec fn spec_card_kind(self) -> Kind {
        self.suit.spec_kind()
    }

    pub open spec fn spec_is_monster(self) -> bool {
        self.suit.spec_kind() == Kind::Monster
    }

    pub open spec fn spec_is_weapon(self) -> bool {
        self.suit.spec_kind() == Kind::Weapon
    }

    pub open spec fn spec_is_potion(self) -> bool {
        self.suit.spec_kind() == Kind::Potion
    }

    /// A card of the given suit and rank; ranks run from 2 to 14.
    pub fn new(suit: Suit, rank: u8) -> (c: Card)
        requires
            2 <= rank <= 14,
        ensures
            c.suit == suit,
            c.rank == rank,
    {
        Card { suit, rank }
    }

    /// The card's combat/heal/weapon value.
    #[verifier::when_used_as_spec(spec_value)]
    pub fn value(self) -> (v: u8)
        ensures
            v == self.rank,
    {
        self.rank
    }

    /// The card's role, given by its suit.
    #[verifier::when_used_as_spec(spec_card_kind)]
    pub fn kind(self) -> (k: Kind)
        ensures
            k == self.suit.spec_kind(),
    {
        self.suit.kind()
    }

    #[verifier::when_used_as_spec(spec_is_monster)]
    pub fn is_monster(self) -> (b: bool)
        ensures
            b == (self.suit.spec_kind() == Kind::Monster),
    {
        match self.kind() {
            Kind::Monster => true,
            _ => false,
        }
    }

    #[verifier::when_used_as_spec(spec_is_weapon)]
    pub fn is_weapon(self) -> (b: bool)
        ensures
            b == (self.suit.spec_kind() == Kind::Weapon),
    {
        match self.kind() {
            Kind::Weapon => true,
            _ => false,
        }
    }

    #[verifier::when_used_as_spec(spec_is_potion)]
    pub fn is_potion(self) -> (b: bool)
        ensures
            b == (self.suit.spec_kind() == Kind::Potion),
    {
        match self.kind() {
            Kind::Potion => true,
            _ => false,
        }
    }

    /// Short rank label as shown on the card face ("2".."10", "J", "Q", "K", "A").
    pub fn rank_label(self) -> (s: &'static str)
        ensures
            s@ == rank_text(self.rank),
    {
        match self.rank {
            2 => "2",
            3 => "3",
            4 => "4",
            5 => "5",
            6 => "6",
            7 => "7",
            8 => "8",
            9 => "9",
            10 => "10",
            11 => "J",
            12 => "Q",
            13 => "K",
            14 => "A",
            _ => "?",
        }
    }
}

} // verus!
