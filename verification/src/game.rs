//! The Scoundrel rules engine: pure game state plus a single `apply` reducer.
//!
//! Every state transition goes through [`GameState::apply`], which validates
//! the move, mutates state, and returns a list of [`GameEvent`]s describing
//! what happened, or a [`MoveError`] if the move was illegal.
//!
//! The meaning of each move is given by [`GameView::step`], a transition
//! function on the mathematical model of a game; `apply` is proved to follow
//! it exactly.

use vstd::prelude::*;

use crate::card::{Card, Kind};
use crate::deck::{shuffled_deck, standard_deck, DECK_SIZE};
use crate::rules::WeaponRule;

verus! {

/// Starting and maximum health.
pub const MAX_HEALTH: i32 = 20;

/// Cards face-up in a full room.
pub const ROOM_SIZE: usize = 4;

/// An equipped weapon and the monsters it has slain (its "binding" stack).
#[derive(Debug, Clone, PartialEq, Eq)]
pub struct Weapon {
    pub card: Card,
    /// Monsters slain with this weapon, in order. The most recent one sets the
    /// binding ceiling.
    pub slain: Vec<Card>,
}

/// The model of a weapon: its card and the sequence of monsters it slew.
#[verifier::ext_equal]
pub struct WeaponView {
    pub card: Card,
    pub slain: Seq<Card>,
}

impl View for Weapon {
    type V = WeaponView;

    open spec fn view(&self) -> WeaponView {
        WeaponView { card: self.card, slain: self.slain@ }
    }
}

impl WeaponView {
    /// The binding ceiling: the value of the last monster slain, if any.
    pub open spec fn bound(self) -> Option<u8> {
        if self.slain.len() == 0 {
            None
        } else {
            Some(self.slain.last().rank)
        }
    }

    /// Whether this weapon may be used against a monster of value `monster`.
    pub open spec fn can_reach(self, monster: u8, rule: WeaponRule) -> bool {
        match self.bound() {
            None => true,
            Some(b) => rule.spec_reaches(monster, b),
        }
    }
}

/// The model of an optional weapon.
pub open spec fn weapon_view(w: Option<Weapon>) -> Option<WeaponView> {
    match w {
        Some(w) => Some(w@),
        None => None,
    }
}

impl Weapon {
    fn new(card: Card) -> (w: Weapon)
        ensures
            w@ == (WeaponView { card, slain: Seq::empty() }),
    {
        Weapon { card, slain: Vec::new() }
    }

    /// The binding ceiling: the value of the last monster slain, or `None` if
    /// the weapon is fresh (can hit anything).
    pub fn bound(&self) -> (b: Option<u8>)
        ensures
            b == self@.bound(),
    {
        if self.slain.len() == 0 {
            None
        } else {
            Some(self.slain[self.slain.len() - 1].value())
        }
    }

    /// Whether this weapon may legally be used against `monster` under `rule`.
    pub fn can_reach(&self, monster: u8, rule: WeaponRule) -> (b: bool)
        ensures
            b == self@.can_reach(monster, rule),
    {
        match self.bound() {
            None => true,
            Some(b) => rule.reaches(monster, b),
        }
    }
}

/// Overall game status.
#[derive(Debug, Clone, Copy, PartialEq, Eq, Structural)]
pub enum Status {
    Playing,
    Won,
    Lost,
}

/// A move the player can make.
#[derive(Debug, Clone, Copy, PartialEq, Eq, Structural)]
pub enum Action {
    /// Fight the monster at `index`. `use_weapon` chooses the equipped weapon
    /// over bare hands.
    Fight { index: usize, use_weapon: bool },
    /// Equip the weapon (diamond) at `index`.
    Equip(usize),
    /// Drink the potion (heart) at `index`.
    Drink(usize),
    /// Avoid the whole room: put all four cards on the bottom of the deck and
    /// deal a fresh four.
    Avoid,
}

/// Why a move was rejected.
#[derive(Debug, Clone, Copy, PartialEq, Eq, Structural)]
pub enum MoveError {
    GameOver,
    OutOfBounds,
    /// The card at that index is the wrong kind for the action.
    WrongKind,
    /// Tried to fight with a weapon but none is equipped.
    NoWeapon,
    /// The equipped weapon is bound and cannot reach that monster.
    WeaponCantReach,
    /// Avoiding is not allowed right now (already avoided the previous room,
    /// or the room has been partially played, or it is not a full room).
    CantAvoid,
}

/// Something that happened as a result of a move.
#[derive(Debug, Clone, Copy, PartialEq, Eq, Structural)]
pub enum GameEvent {
    Fought { monster: Card, with_weapon: bool, damage: u8 },
    Equipped { weapon: Card, discarded: Option<Card> },
    Drank { potion: Card, healed: u8, wasted: bool },
    Avoided,
    /// A new room was dealt after the previous one was played down to one card.
    RoomRefilled,
    Won,
    Lost,
}

/// The full game state.
#[derive(Debug, Clone, PartialEq, Eq)]
pub struct GameState {
    pub seed: u64,
    pub rule: WeaponRule,
    pub health: i32,
    /// Draw pile. The top of the deck is the last element; the bottom is the
    /// front.
    pub deck: Vec<Card>,
    /// Face-up room, up to `ROOM_SIZE` cards.
    pub room: Vec<Card>,
    pub discard: Vec<Card>,
    pub weapon: Option<Weapon>,
    pub status: Status,
    /// Whether a potion has already been drunk in the current room cycle.
    pub potion_used: bool,
    /// Whether the immediately preceding room was avoided.
    pub avoided_previous: bool,
    /// Cards resolved since this room cycle began (avoid is only legal at 0).
    pub resolved_this_cycle: u8,
    /// The last card resolved, for the full-health potion scoring bonus.
    pub last_resolved: Option<Card>,
    pub rooms_cleared: u32,
    pub monsters_slain: u32,
    pub turns: u32,
}

/// The mathematical model of a game.
#[verifier::ext_equal]
pub struct GameView {
    pub seed: u64,
    pub rule: WeaponRule,
    pub health: int,
    pub deck: Seq<Card>,
    pub room: Seq<Card>,
    pub discard: Seq<Card>,
    pub weapon: Option<WeaponView>,
    pub status: Status,
    pub potion_used: bool,
    pub avoided_previous: bool,
    pub resolved_this_cycle: int,
    pub last_resolved: Option<Card>,
    pub rooms_cleared: int,
    pub monsters_slain: int,
    pub turns: int,
}

impl View for GameState {
    type V = GameView;

    open spec fn view(&self) -> GameView {
        GameView {
            seed: self.seed,
            rule: self.rule,
            health: self.health as int,
            deck: self.deck@,
            room: self.room@,
            discard: self.discard@,
            weapon: weapon_view(self.weapon),
            status: self.status,
            potion_used: self.potion_used,
            avoided_previous: self.avoided_previous,
            resolved_this_cycle: self.resolved_this_cycle as int,
            last_resolved: self.last_resolved,
            rooms_cleared: self.rooms_cleared as int,
            monsters_slain: self.monsters_slain as int,
            turns: self.turns as int,
        }
    }
}

/// The top `k` cards of `deck` (its last `k` elements) in the order they are
/// drawn: topmost first.
pub open spec fn top_drawn(deck: Seq<Card>, k: int) -> Seq<Card> {
    Seq::new(k as nat, |i: int| deck[deck.len() - 1 - i])
}

/// The sum of the values of the monsters in `cards`.
pub open spec fn monster_total(cards: Seq<Card>) -> int
    decreases cards.len(),
{
    if cards.len() == 0 {
        0
    } else {
        monster_total(cards.drop_last()) + if cards.last().spec_is_monster() {
            cards.last().rank as int
        } else {
            0
        }
    }
}

/// Damage a monster deals through a weapon: its value minus the weapon's,
/// floored at zero.
pub open spec fn blade_damage(monster: u8, weapon: u8) -> u8 {
    if monster > weapon {
        (monster - weapon) as u8
    } else {
        0
    }
}

impl GameView {
    /// No counter or health update of one move can overflow its machine type.
    pub open spec fn fits_machine(self) -> bool {
        &&& i32::MIN + 255 <= self.health <= i32::MAX - 255
        &&& self.counters_fit()
    }

    /// No bookkeeping counter of one move can overflow its machine type.
    pub open spec fn counters_fit(self) -> bool {
        &&& self.turns < u32::MAX
        &&& self.monsters_slain < u32::MAX
        &&& self.rooms_cleared < u32::MAX
        &&& self.resolved_this_cycle < u8::MAX
    }

    pub open spec fn is_over(self) -> bool {
        self.status != Status::Playing
    }

    /// Whether the player may avoid the current room: the game is on, the
    /// previous room was not avoided, no card of this room was played, and
    /// the room is full.
    pub open spec fn can_avoid(self) -> bool {
        &&& self.status == Status::Playing
        &&& !self.avoided_previous
        &&& self.resolved_this_cycle == 0
        &&& self.room.len() == ROOM_SIZE
    }

    /// Whether the equipped weapon can legally fight the card at `index`.
    pub open spec fn weapon_reaches(self, index: int) -> bool {
        &&& 0 <= index < self.room.len()
        &&& self.room[index].spec_is_monster()
        &&& self.weapon is Some
        &&& self.weapon->0.can_reach(self.room[index].rank, self.rule)
    }

    /// How many cards a refill draws: enough to fill the room, as far as the
    /// deck allows.
    pub open spec fn draw_count(self) -> int {
        if self.room.len() >= ROOM_SIZE {
            0
        } else if self.deck.len() < ROOM_SIZE - self.room.len() {
            self.deck.len() as int
        } else {
            ROOM_SIZE - self.room.len()
        }
    }

    /// Draw from the top of the deck until the room holds `ROOM_SIZE` cards
    /// or the deck is empty.
    pub open spec fn filled(self) -> GameView {
        let k = self.draw_count();
        GameView {
            deck: self.deck.take(self.deck.len() - k),
            room: self.room + top_drawn(self.deck, k),
            ..self
        }
    }

    /// A game still on is won once the deck and the room are both empty.
    pub open spec fn won_check(self, events: Seq<GameEvent>) -> (GameView, Seq<GameEvent>) {
        if self.status == Status::Playing && self.deck.len() == 0 && self.room.len() == 0 {
            (GameView { status: Status::Won, ..self }, events.push(GameEvent::Won))
        } else {
            (self, events)
        }
    }

    /// Bookkeeping after a card is resolved: a turn passes; at zero health
    /// the game is lost; a room played down to one card is refilled and a
    /// new room cycle begins; then the win check.
    pub open spec fn resolved(self, events: Seq<GameEvent>) -> (GameView, Seq<GameEvent>) {
        let s = GameView {
            turns: self.turns + 1,
            resolved_this_cycle: self.resolved_this_cycle + 1,
            ..self
        };
        if s.health <= 0 {
            (GameView { status: Status::Lost, ..s }, events.push(GameEvent::Lost))
        } else if s.room.len() == 1 && s.deck.len() > 0 {
            let f = s.filled();
            GameView {
                rooms_cleared: f.rooms_cleared + 1,
                potion_used: false,
                resolved_this_cycle: 0,
                avoided_previous: false,
                ..f
            }.won_check(events.push(GameEvent::RoomRefilled))
        } else {
            s.won_check(events)
        }
    }

    /// Fight the monster at `index`, with the equipped weapon or bare-handed.
    pub open spec fn fight_step(self, index: int, use_weapon: bool) -> (GameView, Result<Seq<GameEvent>, MoveError>) {
        if !(0 <= index < self.room.len()) {
            (self, Err(MoveError::OutOfBounds))
        } else if !self.room[index].spec_is_monster() {
            (self, Err(MoveError::WrongKind))
        } else if use_weapon && self.weapon is None {
            (self, Err(MoveError::NoWeapon))
        } else if use_weapon && !self.weapon->0.can_reach(self.room[index].rank, self.rule) {
            (self, Err(MoveError::WeaponCantReach))
        } else {
            let card = self.room[index];
            let damage: u8 = if use_weapon {
                blade_damage(card.rank, self.weapon->0.card.rank)
            } else {
                card.rank
            };
            let s = GameView {
                weapon: if use_weapon {
                    Some(WeaponView { card: self.weapon->0.card, slain: self.weapon->0.slain.push(card) })
                } else {
                    self.weapon
                },
                discard: if use_weapon { self.discard } else { self.discard.push(card) },
                room: self.room.remove(index),
                health: self.health - damage,
                monsters_slain: self.monsters_slain + 1,
                last_resolved: Some(card),
                ..self
            };
            let r = s.resolved(seq![GameEvent::Fought { monster: card, with_weapon: use_weapon, damage }]);
            (r.0, Ok(r.1))
        }
    }

    /// Equip the weapon at `index`; the old weapon and its slain stack go to
    /// the discard pile.
    pub open spec fn equip_step(self, index: int) -> (GameView, Result<Seq<GameEvent>, MoveError>) {
        if !(0 <= index < self.room.len()) {
            (self, Err(MoveError::OutOfBounds))
        } else if !self.room[index].spec_is_weapon() {
            (self, Err(MoveError::WrongKind))
        } else {
            let card = self.room[index];
            let s = GameView {
                weapon: Some(WeaponView { card, slain: Seq::empty() }),
                discard: match self.weapon {
                    Some(w) => self.discard.push(w.card) + w.slain,
                    None => self.discard,
                },
                room: self.room.remove(index),
                last_resolved: Some(card),
                ..self
            };
            let discarded = match self.weapon {
                Some(w) => Some(w.card),
                None => None,
            };
            let r = s.resolved(seq![GameEvent::Equipped { weapon: card, discarded }]);
            (r.0, Ok(r.1))
        }
    }

    /// Drink the potion at `index`: only the first potion of a room cycle
    /// heals, and never above `MAX_HEALTH`.
    pub open spec fn drink_step(self, index: int) -> (GameView, Result<Seq<GameEvent>, MoveError>) {
        if !(0 <= index < self.room.len()) {
            (self, Err(MoveError::OutOfBounds))
        } else if !self.room[index].spec_is_potion() {
            (self, Err(MoveError::WrongKind))
        } else {
            let card = self.room[index];
            let healed_to = if self.health + card.rank > MAX_HEALTH {
                MAX_HEALTH as int
            } else {
                self.health + card.rank
            };
            let new_health = if self.potion_used { self.health } else { healed_to };
            let healed: u8 = if self.potion_used { 0 } else { (healed_to - self.health) as u8 };
            let s = GameView {
                health: new_health,
                potion_used: true,
                discard: self.discard.push(card),
                room: self.room.remove(index),
                last_resolved: Some(card),
                ..self
            };
            let r = s.resolved(seq![GameEvent::Drank { potion: card, healed, wasted: self.potion_used }]);
            (r.0, Ok(r.1))
        }
    }

    /// Avoid the room: its cards go, in order, to the bottom of the deck and
    /// a fresh room is dealt.
    pub open spec fn avoid_step(self) -> (GameView, Result<Seq<GameEvent>, MoveError>) {
        if !self.can_avoid() {
            (self, Err(MoveError::CantAvoid))
        } else {
            let s = GameView {
                deck: self.room + self.deck,
                room: Seq::empty(),
                avoided_previous: true,
                potion_used: false,
                resolved_this_cycle: 0,
                turns: self.turns + 1,
                ..self
            }.filled();
            let r = s.won_check(seq![GameEvent::Avoided]);
            (r.0, Ok(r.1))
        }
    }

    /// The effect of a move: the next state, and the events it produced or
    /// the reason it was refused (in which case the state is unchanged).
    pub open spec fn step(self, action: Action) -> (GameView, Result<Seq<GameEvent>, MoveError>) {
        if self.status != Status::Playing {
            (self, Err(MoveError::GameOver))
        } else {
            match action {
                Action::Fight { index, use_weapon } => self.fight_step(index as int, use_weapon),
                Action::Equip(index) => self.equip_step(index as int),
                Action::Drink(index) => self.drink_step(index as int),
                Action::Avoid => self.avoid_step(),
            }
        }
    }
}

/// `post` and `r` are the state and the result that `expected` describes.
pub open spec fn outcome_is(
    post: GameView,
    r: Result<Vec<GameEvent>, MoveError>,
    expected: (GameView, Result<Seq<GameEvent>, MoveError>),
) -> bool {
    &&& post == expected.0
    &&& match (r, expected.1) {
        (Ok(v), Ok(e)) => v@ == e,
        (Err(a), Err(b)) => a == b,
        _ => false,
    }
}

impl GameState {
    /// Draw from the top of the deck until the room holds `ROOM_SIZE` cards or
    /// the deck is empty.
    fn draw_to_fill(&mut self)
        ensures
            final(self)@ == old(self)@.filled(),
    {
        let ghost s0 = self@;
        let ghost k = s0.draw_count();
        let mut j: usize = 0;
        while self.room.len() < ROOM_SIZE && self.deck.len() > 0
            invariant
                0 <= j <= k,
                self.room@ == s0.room + top_drawn(s0.deck, j as int),
                self.deck@ == s0.deck.take(s0.deck.len() - j),
                self@ == (GameView { room: self.room@, deck: self.deck@, ..s0 }),
                k == s0.draw_count(),
            decreases self.deck.len(),
        {
            let ghost d = self.deck@;
            let c = self.deck.pop().unwrap();
            self.room.push(c);
            proof {
                assert(c == s0.deck[s0.deck.len() - 1 - j]);
                assert(top_drawn(s0.deck, j + 1) =~= top_drawn(s0.deck, j as int).push(c));
                assert(self.deck@ =~= s0.deck.take(s0.deck.len() - (j + 1)));
            }
            j = j + 1;
        }
        proof {
            assert(j == k);
            assert(self.room@ =~= s0.filled().room);
            assert(self.deck@ =~= s0.filled().deck);
        }
    }
}


impl GameState {
    /// A game still on is won once the deck and the room are both empty.
    fn check_win(&mut self, events: &mut Vec<GameEvent>)
        ensures
            (final(self)@, final(events)@) == old(self)@.won_check(old(events)@),
    {
        if self.status == Status::Playing && self.deck.len() == 0 && self.room.len() == 0 {
            self.status = Status::Won;
            events.push(GameEvent::Won);
        }
    }

    /// Shared bookkeeping after a card is resolved (fight/equip/drink).
    fn after_resolve(&mut self, events: &mut Vec<GameEvent>)
        requires
            old(self).turns < u32::MAX,
            old(self).rooms_cleared < u32::MAX,
            old(self).resolved_this_cycle < u8::MAX,
        ensures
            (final(self)@, final(events)@) == old(self)@.resolved(old(events)@),
    {
        self.turns = self.turns + 1;
        self.resolved_this_cycle = self.resolved_this_cycle + 1;

        if self.health <= 0 {
            self.status = Status::Lost;
            events.push(GameEvent::Lost);
            return;
        }
        // Once a room is played down to a single card, carry it over and deal
        // three fresh cards: a new room cycle.
        if self.room.len() == 1 && self.deck.len() > 0 {
            self.draw_to_fill();
            self.rooms_cleared = self.rooms_cleared + 1;
            self.potion_used = false;
            self.resolved_this_cycle = 0;
            self.avoided_previous = false;
            events.push(GameEvent::RoomRefilled);
        }
        self.check_win(events);
    }

    fn fight(&mut self, index: usize, use_weapon: bool) -> (r: Result<Vec<GameEvent>, MoveError>)
        requires
            old(self)@.fits_machine(),
        ensures
            outcome_is(final(self)@, r, old(self)@.fight_step(index as int, use_weapon)),
    {
        if index >= self.room.len() {
            return Err(MoveError::OutOfBounds);
        }
        let card = self.room[index];
        if !card.is_monster() {
            return Err(MoveError::WrongKind);
        }
        let mv = card.value();
        let damage: u8 = if use_weapon {
            let dmg = match &self.weapon {
                None => {
                    return Err(MoveError::NoWeapon);
                },
                Some(w) => {
                    if !w.can_reach(mv, self.rule) {
                        return Err(MoveError::WeaponCantReach);
                    }
                    mv.saturating_sub(w.card.value())
                },
            };
            // The slain monster is tucked under the weapon, setting its ceiling.
            let mut w = self.weapon.take().unwrap();
            w.slain.push(card);
            self.weapon = Some(w);
            dmg
        } else {
            self.discard.push(card);
            mv
        };
        self.room.remove(index);
        self.health = self.health - damage as i32;
        self.monsters_slain = self.monsters_slain + 1;
        self.last_resolved = Some(card);
        let mut events = Vec::new();
        events.push(GameEvent::Fought { monster: card, with_weapon: use_weapon, damage });
        self.after_resolve(&mut events);
        Ok(events)
    }

    fn equip(&mut self, index: usize) -> (r: Result<Vec<GameEvent>, MoveError>)
        requires
            old(self)@.fits_machine(),
        ensures
            outcome_is(final(self)@, r, old(self)@.equip_step(index as int)),
    {
        if index >= self.room.len() {
            return Err(MoveError::OutOfBounds);
        }
        let card = self.room[index];
        if !card.is_weapon() {
            return Err(MoveError::WrongKind);
        }
        let discarded = match self.weapon.take() {
            Some(old) => {
                let c = old.card;
                let mut slain = old.slain;
                self.discard.push(c);
                self.discard.append(&mut slain);
                Some(c)
            },
            None => None,
        };
        self.weapon = Some(Weapon::new(card));
        self.room.remove(index);
        self.last_resolved = Some(card);
        let mut events = Vec::new();
        events.push(GameEvent::Equipped { weapon: card, discarded });
        self.after_resolve(&mut events);
        Ok(events)
    }

    fn drink(&mut self, index: usize) -> (r: Result<Vec<GameEvent>, MoveError>)
        requires
            old(self)@.fits_machine(),
        ensures
            outcome_is(final(self)@, r, old(self)@.drink_step(index as int)),
    {
        if index >= self.room.len() {
            return Err(MoveError::OutOfBounds);
        }
        let card = self.room[index];
        if !card.is_potion() {
            return Err(MoveError::WrongKind);
        }
        let wasted = self.potion_used;
        let healed: u8 = if self.potion_used {
            0
        } else {
            let before = self.health;
            let raised = self.health + card.value() as i32;
            self.health = if raised > MAX_HEALTH { MAX_HEALTH } else { raised };
            self.potion_used = true;
            (self.health - before) as u8
        };
        self.discard.push(card);
        self.room.remove(index);
        self.last_resolved = Some(card);
        let mut events = Vec::new();
        events.push(GameEvent::Drank { potion: card, healed, wasted });
        self.after_resolve(&mut events);
        Ok(events)
    }

    fn avoid(&mut self) -> (r: Result<Vec<GameEvent>, MoveError>)
        requires
            old(self)@.fits_machine(),
        ensures
            outcome_is(final(self)@, r, old(self)@.avoid_step()),
    {
        if !self.can_avoid() {
            return Err(MoveError::CantAvoid);
        }
        // Move the room's cards to the bottom (front) of the deck, preserving
        // their order, then deal a fresh room.
        let mut bottom = Vec::new();
        std::mem::swap(&mut bottom, &mut self.room);
        bottom.append(&mut self.deck);
        self.deck = bottom;
        self.avoided_previous = true;
        self.potion_used = false;
        self.resolved_this_cycle = 0;
        self.turns = self.turns + 1;
        self.draw_to_fill();
        let mut events = Vec::new();
        events.push(GameEvent::Avoided);
        self.check_win(&mut events);
        Ok(events)
    }

    // ---- queries ----

    /// Whether the game has ended (won or lost).
    pub fn is_over(&self) -> (b: bool)
        ensures
            b == self@.is_over(),
    {
        self.status != Status::Playing
    }

    /// Whether a potion has already been drunk in the current room cycle.
    pub fn potion_used(&self) -> (b: bool)
        ensures
            b == self.potion_used,
    {
        self.potion_used
    }

    /// Whether the player may avoid the current room right now.
    pub fn can_avoid(&self) -> (b: bool)
        ensures
            b == self@.can_avoid(),
    {
        self.status == Status::Playing && !self.avoided_previous && self.resolved_this_cycle == 0
            && self.room.len() == ROOM_SIZE
    }

    /// Whether the equipped weapon can legally fight the card at `index`.
    pub fn weapon_reaches(&self, index: usize) -> (b: bool)
        ensures
            b == self@.weapon_reaches(index as int),
    {
        if index >= self.room.len() {
            return false;
        }
        let card = self.room[index];
        match &self.weapon {
            Some(w) => card.is_monster() && w.can_reach(card.value(), self.rule),
            None => false,
        }
    }

    // ---- the reducer ----

    /// Apply a move. On success, returns the events it produced; on failure,
    /// the state is left untouched and a [`MoveError`] is returned.
    pub fn apply(&mut self, action: Action) -> (r: Result<Vec<GameEvent>, MoveError>)
        requires
            old(self)@.fits_machine(),
        ensures
            outcome_is(final(self)@, r, old(self)@.step(action)),
    {
        if self.status != Status::Playing {
            return Err(MoveError::GameOver);
        }
        match action {
            Action::Fight { index, use_weapon } => self.fight(index, use_weapon),
            Action::Equip(index) => self.equip(index),
            Action::Drink(index) => self.drink(index),
            Action::Avoid => self.avoid(),
        }
    }
}


/// The value a card adds to a monster tally.
pub open spec fn monster_value(c: Card) -> int {
    if c.spec_is_monster() { c.rank as int } else { 0 }
}

/// A prefix of a hand never tallies more monster value than the whole hand,
/// and no tally is negative.
pub proof fn lemma_monster_total_prefix(cards: Seq<Card>, i: int)
    requires
        0 <= i <= cards.len(),
    ensures
        0 <= monster_total(cards.take(i)) <= monster_total(cards),
    decreases cards.len(),
{
    if i == cards.len() {
        assert(cards.take(i) =~= cards);
        if cards.len() > 0 {
            lemma_monster_total_prefix(cards.drop_last(), 0);
        }
    } else {
        assert(cards.drop_last().take(i) =~= cards.take(i));
        lemma_monster_total_prefix(cards.drop_last(), i);
        lemma_monster_total_prefix(cards.drop_last(), cards.len() - 1);
        assert(cards.drop_last().take(cards.len() - 1) =~= cards.drop_last());
    }
}

/// Extending a prefix by one card adds that card's monster value.
proof fn lemma_monster_total_step(cards: Seq<Card>, i: int)
    requires
        0 <= i < cards.len(),
    ensures
        monster_total(cards.take(i + 1)) == monster_total(cards.take(i)) + monster_value(cards[i]),
{
    assert(cards.take(i + 1).drop_last() =~= cards.take(i));
}

impl GameView {
    /// The value of every monster still in the dungeon (deck and room).
    pub open spec fn lurking_total(self) -> int {
        monster_total(self.deck) + monster_total(self.room)
    }

    /// Final score. Positive on a win (remaining health, plus the value of
    /// the last card when it was a potion drunk at full health); on a loss,
    /// health minus the value of every monster still lurking in the dungeon.
    pub open spec fn score(self) -> int {
        match self.status {
            Status::Won => {
                if self.health == MAX_HEALTH && self.last_resolved is Some
                    && self.last_resolved->0.spec_is_potion() {
                    self.health + self.last_resolved->0.rank
                } else {
                    self.health
                }
            },
            Status::Lost => self.health - self.lurking_total(),
            Status::Playing => self.health,
        }
    }

    /// The score's tally fits in an `i32`.
    pub open spec fn score_fits(self) -> bool {
        self.status == Status::Lost ==> {
            &&& self.lurking_total() <= i32::MAX
            &&& self.health - self.lurking_total() >= i32::MIN
        }
    }
}

/// The monster value tallied over `cards`, added to `acc`.
fn add_monster_values(cards: &Vec<Card>, acc: i32, cap: Ghost<int>) -> (total: i32)
    requires
        acc >= 0,
        acc + monster_total(cards@) <= cap@,
        cap@ <= i32::MAX,
    ensures
        total == acc + monster_total(cards@),
{
    let mut total = acc;
    let mut i: usize = 0;
    while i < cards.len()
        invariant
            0 <= i <= cards.len(),
            total == acc + monster_total(cards@.take(i as int)),
            acc >= 0,
            acc + monster_total(cards@) <= cap@,
            cap@ <= i32::MAX,
        decreases cards.len() - i,
    {
        proof {
            lemma_monster_total_step(cards@, i as int);
            lemma_monster_total_prefix(cards@, i + 1);
        }
        let c = cards[i];
        if c.is_monster() {
            total = total + c.value() as i32;
        }
        i = i + 1;
    }
    proof {
        assert(cards@.take(cards.len() as int) =~= cards@);
    }
    total
}

impl GameState {
    /// Final score: see [`GameView::score`].
    pub fn score(&self) -> (r: i32)
        requires
            self@.score_fits(),
        ensures
            r == self@.score(),
            self.status == Status::Won && !(self.last_resolved is Some && self.last_resolved->0.suit
                == crate::card::Suit::Hearts) ==> r == self.health,
            self.status == Status::Won && self.health != MAX_HEALTH ==> r == self.health,
            self.status == Status::Playing ==> r == self.health,
    {
        match self.status {
            Status::Won => {
                let base = self.health;
                if base == MAX_HEALTH {
                    if let Some(c) = self.last_resolved {
                        if c.is_potion() {
                            return base + c.value() as i32;
                        }
                    }
                }
                base
            },
            Status::Lost => {
                proof {
                    lemma_monster_total_prefix(self.deck@, 0);
                    lemma_monster_total_prefix(self.room@, 0);
                    assert(self.deck@.take(0) =~= Seq::<Card>::empty());
                    assert(self.room@.take(0) =~= Seq::<Card>::empty());
                }
                let in_deck = add_monster_values(&self.deck, 0, Ghost(self@.lurking_total()));
                let remaining = add_monster_values(&self.room, in_deck, Ghost(self@.lurking_total()));
                self.health - remaining
            },
            Status::Playing => self.health,
        }
    }
}


impl GameView {
    /// A fresh game on `deck`: full health, nothing played, and the first
    /// room dealt from the top of the deck.
    pub open spec fn opening(seed: u64, rule: WeaponRule, deck: Seq<Card>) -> GameView {
        GameView {
            seed,
            rule,
            health: MAX_HEALTH as int,
            deck,
            room: Seq::empty(),
            discard: Seq::empty(),
            weapon: None,
            status: Status::Playing,
            potion_used: false,
            avoided_previous: false,
            resolved_this_cycle: 0,
            last_resolved: None,
            rooms_cleared: 0,
            monsters_slain: 0,
            turns: 0,
        }.filled()
    }
}

impl GameState {
    /// Start a game on a given draw pile (bottom first, top last): the first
    /// room is dealt from its top.
    pub fn from_deck(seed: u64, rule: WeaponRule, deck: Vec<Card>) -> (g: GameState)
        ensures
            g@ == GameView::opening(seed, rule, deck@),
    {
        let mut state = GameState {
            seed,
            rule,
            health: MAX_HEALTH,
            deck,
            room: Vec::with_capacity(ROOM_SIZE),
            discard: Vec::new(),
            weapon: None,
            status: Status::Playing,
            potion_used: false,
            avoided_previous: false,
            resolved_this_cycle: 0,
            last_resolved: None,
            rooms_cleared: 0,
            monsters_slain: 0,
            turns: 0,
        };
        state.draw_to_fill();
        state
    }

    /// Start a new game from an explicit seed: the deck is the standard deck
    /// shuffled from `seed`, and the first room of four is dealt.
    pub fn new(seed: u64, rule: WeaponRule) -> (g: GameState)
        ensures
            exists|d: Seq<Card>|
                #![trigger GameView::opening(seed, rule, d)]
                d.to_multiset() == standard_deck().to_multiset() && d.len() == DECK_SIZE
                    && g@ == GameView::opening(seed, rule, d),
            g.room@.len() == ROOM_SIZE,
            g.deck@.len() == DECK_SIZE - ROOM_SIZE,
    {
        let deck = shuffled_deck(seed);
        let g = GameState::from_deck(seed, rule, deck);
        g
    }
}

} // verus!
