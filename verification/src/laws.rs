//! Properties of the rules engine that span moves: what every move keeps,
//! what a refused move leaves alone, and what the rules promise of rooms,
//! weapons and potions.

use vstd::multiset::Multiset;
use vstd::prelude::*;

use crate::card::{Card, Suit};
use crate::game::{MoveError, lemma_monster_total_prefix, monster_total, blade_damage, top_drawn, Action, GameEvent, GameView, WeaponView, Status, MAX_HEALTH, ROOM_SIZE};
use crate::rules::WeaponRule;

verus! {

/// Each monster slain with a weapon lies within the reach, under `rule`, of
/// every monster slain before it.
pub open spec fn binding_ordered(slain: Seq<Card>, rule: WeaponRule) -> bool {
    forall|i: int, j: int|
        0 <= i < j < slain.len() ==> rule.spec_reaches(#[trigger] slain[j].rank, #[trigger] slain[i].rank)
}

/// An equipped weapon is a diamond, its stack holds only monsters, and the
/// stack is ordered by the binding rule.
pub open spec fn weapon_ok(w: Option<WeaponView>, rule: WeaponRule) -> bool {
    match w {
        None => true,
        Some(w) => {
            &&& w.card.spec_is_weapon()
            &&& forall|i: int| 0 <= i < w.slain.len() ==> (#[trigger] w.slain[i]).spec_is_monster()
            &&& binding_ordered(w.slain, rule)
        },
    }
}

impl GameView {
    /// The invariant of every game that the rules can produce.
    pub open spec fn valid(self) -> bool {
        &&& self.health <= MAX_HEALTH
        &&& self.room.len() <= ROOM_SIZE
        &&& 0 <= self.resolved_this_cycle
        &&& self.status == Status::Playing ==> {
            &&& self.health > 0
            &&& (self.room.len() + self.resolved_this_cycle == ROOM_SIZE || self.deck.len() == 0)
        }
        &&& self.status == Status::Won ==> {
            &&& self.health > 0
            &&& self.deck.len() == 0
            &&& self.room.len() == 0
        }
        &&& self.status == Status::Lost ==> self.health <= 0
        &&& weapon_ok(self.weapon, self.rule)
    }

    /// Every card of the game, wherever it lies.
    pub open spec fn cards(self) -> Multiset<Card> {
        self.deck.to_multiset().add(self.room.to_multiset()).add(self.discard.to_multiset()).add(
            weapon_cards(self.weapon),
        )
    }

    /// The cards still to be faced: the deck and the room.
    pub open spec fn dungeon_size(self) -> int {
        (self.deck.len() + self.room.len()) as int
    }
}

/// The cards held by an equipped weapon: the weapon and its slain stack.
pub open spec fn weapon_cards(w: Option<WeaponView>) -> Multiset<Card> {
    match w {
        None => Multiset::empty(),
        Some(w) => w.slain.to_multiset().insert(w.card),
    }
}

// ---------------------------------------------------------------------------
// Refilling the room
// ---------------------------------------------------------------------------

proof fn lemma_top_drawn_multiset(deck: Seq<Card>, k: int)
    requires
        0 <= k <= deck.len(),
    ensures
        top_drawn(deck, k).to_multiset() == deck.skip(deck.len() - k).to_multiset(),
    decreases k,
{
    broadcast use vstd::seq_lib::group_to_multiset_ensures;
    if k > 0 {
        lemma_top_drawn_multiset(deck, k - 1);
        let c = deck[deck.len() - k];
        assert(top_drawn(deck, k) =~= top_drawn(deck, k - 1).push(c));
        assert(deck.skip(deck.len() - k) =~= deck.skip(deck.len() - (k - 1)).insert(0, c));
    } else {
        assert(top_drawn(deck, k) =~= Seq::<Card>::empty());
        assert(deck.skip(deck.len() - k) =~= Seq::<Card>::empty());
    }
}

/// Refilling moves cards from the deck to the room and nowhere else.
proof fn lemma_filled_conserves(s: GameView)
    ensures
        s.filled().cards() == s.cards(),
        s.filled().dungeon_size() == s.dungeon_size(),
        0 <= s.draw_count() <= s.deck.len(),
{
    broadcast use vstd::seq_lib::group_to_multiset_ensures;
    let k = s.draw_count();
    let n = s.deck.len() as int;
    lemma_top_drawn_multiset(s.deck, k);
    assert(s.deck =~= s.deck.take(n - k) + s.deck.skip(n - k));
    vstd::seq_lib::lemma_multiset_commutative(s.deck.take(n - k), s.deck.skip(n - k));
    vstd::seq_lib::lemma_multiset_commutative(s.room, top_drawn(s.deck, k));
    assert(s.filled().cards() =~= s.cards());
}

proof fn lemma_filled_shape(s: GameView)
    ensures
        s.filled().room.len() == s.room.len() + s.draw_count(),
        s.room.len() < ROOM_SIZE && s.draw_count() < ROOM_SIZE - s.room.len() ==> s.filled().deck.len() == 0,
        s.room.len() <= ROOM_SIZE ==> s.filled().room.len() <= ROOM_SIZE,
        s.filled().deck.len() == s.deck.len() - s.draw_count(),
        s.filled() == (GameView { deck: s.filled().deck, room: s.filled().room, ..s }),
{
}

// ---------------------------------------------------------------------------
// The invariant
// ---------------------------------------------------------------------------

/// The state just after a card left a room of a valid game still on, before
/// the bookkeeping of `resolved`.
spec fn mid_resolve(s: GameView) -> bool {
    &&& s.status == Status::Playing
    &&& s.health <= MAX_HEALTH
    &&& s.room.len() < ROOM_SIZE
    &&& 0 <= s.resolved_this_cycle
    &&& (s.room.len() + s.resolved_this_cycle + 1 == ROOM_SIZE || s.deck.len() == 0)
    &&& weapon_ok(s.weapon, s.rule)
}

proof fn lemma_resolved_valid(s: GameView, events: Seq<GameEvent>)
    requires
        mid_resolve(s),
    ensures
        s.resolved(events).0.valid(),
{
    let t = GameView { turns: s.turns + 1, resolved_this_cycle: s.resolved_this_cycle + 1, ..s };
    if t.health <= 0 {
    } else if t.room.len() == 1 && t.deck.len() > 0 {
        lemma_filled_shape(t);
    } else {
    }
}

proof fn lemma_reaches_transitive(rule: WeaponRule, a: u8, b: u8, c: u8)
    requires
        rule.spec_reaches(a, b),
        rule.spec_reaches(b, c),
    ensures
        rule.spec_reaches(a, c),
{
}

/// Slaying a reachable monster keeps the weapon's stack ordered.
proof fn lemma_slay_keeps_weapon_ok(w: WeaponView, rule: WeaponRule, c: Card)
    requires
        weapon_ok(Some(w), rule),
        c.spec_is_monster(),
        w.can_reach(c.rank, rule),
    ensures
        weapon_ok(Some(WeaponView { card: w.card, slain: w.slain.push(c) }), rule),
{
    let s2 = w.slain.push(c);
    assert forall|i: int, j: int| 0 <= i < j < s2.len() implies rule.spec_reaches(
        #[trigger] s2[j].rank,
        #[trigger] s2[i].rank,
    ) by {
        if j == w.slain.len() {
            let last = w.slain.len() - 1;
            if i < last {
                assert(rule.spec_reaches(w.slain[last].rank, w.slain[i].rank));
                lemma_reaches_transitive(rule, c.rank, w.slain[last].rank, w.slain[i].rank);
            }
        } else {
            assert(s2[i] == w.slain[i] && s2[j] == w.slain[j]);
        }
    }
    assert forall|i: int| 0 <= i < s2.len() implies (#[trigger] s2[i]).spec_is_monster() by {
        if i < w.slain.len() {
            assert(s2[i] == w.slain[i]);
        }
    }
}

/// Every move keeps a valid game valid.
pub proof fn lemma_step_preserves_valid(s: GameView, action: Action)
    requires
        s.valid(),
    ensures
        s.step(action).0.valid(),
{
    if s.status != Status::Playing {
        return;
    }
    match action {
        Action::Fight { index, use_weapon } => {
            let i = index as int;
            if 0 <= i < s.room.len() && s.room[i].spec_is_monster() && !(use_weapon && s.weapon is None)
                && !(use_weapon && !s.weapon->0.can_reach(s.room[i].rank, s.rule)) {
                let card = s.room[i];
                if use_weapon {
                    lemma_slay_keeps_weapon_ok(s.weapon->0, s.rule, card);
                }
                let damage: u8 = if use_weapon {
                    blade_damage(card.rank, s.weapon->0.card.rank)
                } else {
                    card.rank
                };
                let m = GameView {
                    weapon: if use_weapon {
                        Some(WeaponView { card: s.weapon->0.card, slain: s.weapon->0.slain.push(card) })
                    } else {
                        s.weapon
                    },
                    discard: if use_weapon { s.discard } else { s.discard.push(card) },
                    room: s.room.remove(i),
                    health: s.health - damage,
                    monsters_slain: s.monsters_slain + 1,
                    last_resolved: Some(card),
                    ..s
                };
                lemma_resolved_valid(m, seq![GameEvent::Fought { monster: card, with_weapon: use_weapon, damage }]);
            }
        },
        Action::Equip(index) => {
            let i = index as int;
            if 0 <= i < s.room.len() && s.room[i].spec_is_weapon() {
                let card = s.room[i];
                let m = GameView {
                    weapon: Some(WeaponView { card, slain: Seq::empty() }),
                    discard: match s.weapon {
                        Some(w) => s.discard.push(w.card) + w.slain,
                        None => s.discard,
                    },
                    room: s.room.remove(i),
                    last_resolved: Some(card),
                    ..s
                };
                let discarded = match s.weapon {
                    Some(w) => Some(w.card),
                    None => None,
                };
                lemma_resolved_valid(m, seq![GameEvent::Equipped { weapon: card, discarded }]);
            }
        },
        Action::Drink(index) => {
            let i = index as int;
            if 0 <= i < s.room.len() && s.room[i].spec_is_potion() {
                let card = s.room[i];
                let healed_to = if s.health + card.rank > MAX_HEALTH {
                    MAX_HEALTH as int
                } else {
                    s.health + card.rank
                };
                let new_health = if s.potion_used { s.health } else { healed_to };
                let healed: u8 = if s.potion_used { 0 } else { (healed_to - s.health) as u8 };
                let m = GameView {
                    health: new_health,
                    potion_used: true,
                    discard: s.discard.push(card),
                    room: s.room.remove(i),
                    last_resolved: Some(card),
                    ..s
                };
                lemma_resolved_valid(m, seq![GameEvent::Drank { potion: card, healed, wasted: s.potion_used }]);
            }
        },
        Action::Avoid => {
            if s.can_avoid() {
                let m = GameView {
                    deck: s.room + s.deck,
                    room: Seq::empty(),
                    avoided_previous: true,
                    potion_used: false,
                    resolved_this_cycle: 0,
                    turns: s.turns + 1,
                    ..s
                };
                lemma_filled_shape(m);
            }
        },
    }
}


// ---------------------------------------------------------------------------
// Conservation of cards
// ---------------------------------------------------------------------------

proof fn lemma_resolved_conserves(s: GameView, events: Seq<GameEvent>)
    ensures
        s.resolved(events).0.cards() == s.cards(),
        s.resolved(events).0.dungeon_size() == s.dungeon_size(),
{
    let t = GameView { turns: s.turns + 1, resolved_this_cycle: s.resolved_this_cycle + 1, ..s };
    lemma_filled_conserves(t);
    assert(t.cards() == s.cards());
}

/// No move creates, destroys or duplicates a card: the multiset of all cards
/// (deck, room, discard pile, weapon and its slain stack) is the same before
/// and after.
pub proof fn lemma_step_conserves_cards(s: GameView, action: Action)
    ensures
        s.step(action).0.cards() == s.cards(),
{
    broadcast use vstd::seq_lib::group_to_multiset_ensures;
    if s.status != Status::Playing {
        return;
    }
    match action {
        Action::Fight { index, use_weapon } => {
            let i = index as int;
            if 0 <= i < s.room.len() && s.room[i].spec_is_monster() && !(use_weapon && s.weapon is None)
                && !(use_weapon && !s.weapon->0.can_reach(s.room[i].rank, s.rule)) {
                let card = s.room[i];
                let damage: u8 = if use_weapon {
                    blade_damage(card.rank, s.weapon->0.card.rank)
                } else {
                    card.rank
                };
                let m = GameView {
                    weapon: if use_weapon {
                        Some(WeaponView { card: s.weapon->0.card, slain: s.weapon->0.slain.push(card) })
                    } else {
                        s.weapon
                    },
                    discard: if use_weapon { s.discard } else { s.discard.push(card) },
                    room: s.room.remove(i),
                    health: s.health - damage,
                    monsters_slain: s.monsters_slain + 1,
                    last_resolved: Some(card),
                    ..s
                };
                assert(m.cards() =~= s.cards());
                lemma_resolved_conserves(m, seq![GameEvent::Fought { monster: card, with_weapon: use_weapon, damage }]);
            }
        },
        Action::Equip(index) => {
            let i = index as int;
            if 0 <= i < s.room.len() && s.room[i].spec_is_weapon() {
                let card = s.room[i];
                let m = GameView {
                    weapon: Some(WeaponView { card, slain: Seq::empty() }),
                    discard: match s.weapon {
                        Some(w) => s.discard.push(w.card) + w.slain,
                        None => s.discard,
                    },
                    room: s.room.remove(i),
                    last_resolved: Some(card),
                    ..s
                };
                if let Some(w) = s.weapon {
                    vstd::seq_lib::lemma_multiset_commutative(s.discard.push(w.card), w.slain);
                }
                assert(m.cards() =~= s.cards());
                let discarded = match s.weapon {
                    Some(w) => Some(w.card),
                    None => None,
                };
                lemma_resolved_conserves(m, seq![GameEvent::Equipped { weapon: card, discarded }]);
            }
        },
        Action::Drink(index) => {
            let i = index as int;
            if 0 <= i < s.room.len() && s.room[i].spec_is_potion() {
                let card = s.room[i];
                let healed_to = if s.health + card.rank > MAX_HEALTH {
                    MAX_HEALTH as int
                } else {
                    s.health + card.rank
                };
                let new_health = if s.potion_used { s.health } else { healed_to };
                let healed: u8 = if s.potion_used { 0 } else { (healed_to - s.health) as u8 };
                let m = GameView {
                    health: new_health,
                    potion_used: true,
                    discard: s.discard.push(card),
                    room: s.room.remove(i),
                    last_resolved: Some(card),
                    ..s
                };
                assert(m.cards() =~= s.cards());
                lemma_resolved_conserves(m, seq![GameEvent::Drank { potion: card, healed, wasted: s.potion_used }]);
            }
        },
        Action::Avoid => {
            if s.can_avoid() {
                let m = GameView {
                    deck: s.room + s.deck,
                    room: Seq::empty(),
                    avoided_previous: true,
                    potion_used: false,
                    resolved_this_cycle: 0,
                    turns: s.turns + 1,
                    ..s
                };
                vstd::seq_lib::lemma_multiset_commutative(s.room, s.deck);
                assert(m.cards() =~= s.cards());
                lemma_filled_conserves(m);
            }
        },
    }
}


// ---------------------------------------------------------------------------
// Refused moves, the end of the game, and rooms
// ---------------------------------------------------------------------------

/// A refused move leaves the game exactly as it was.
pub proof fn lemma_refused_move_changes_nothing(s: GameView, action: Action)
    ensures
        s.step(action).1 is Err ==> s.step(action).0 == s,
{
}

/// Once the game is won or lost, every move is refused with `GameOver`.
pub proof fn lemma_game_over_is_final(s: GameView, action: Action)
    requires
        s.is_over(),
    ensures
        s.step(action) == (s, Err::<Seq<GameEvent>, MoveError>(MoveError::GameOver)),
{
}

/// A game that is over stays over, whatever the move.
pub proof fn lemma_status_never_returns_to_playing(s: GameView, action: Action)
    requires
        s.status != Status::Playing,
    ensures
        s.step(action).0.status == s.status,
{
}

/// A room can never be avoided twice in a row: right after a successful
/// avoid, avoiding again is refused.
pub proof fn lemma_no_two_avoids_in_a_row(s: GameView)
    requires
        s.step(Action::Avoid).1 is Ok,
    ensures
        !s.step(Action::Avoid).0.can_avoid(),
        s.step(Action::Avoid).0.step(Action::Avoid).1 is Err,
{
}

/// Avoiding is only possible before any card of the room was played.
pub proof fn lemma_avoid_only_before_playing(s: GameView)
    requires
        s.resolved_this_cycle > 0,
    ensures
        s.step(Action::Avoid).1 is Err,
{
}

/// Avoiding banks the whole room, in order, at the bottom of the deck, and
/// the fresh room is the top four cards of the deck, topmost first.
pub proof fn lemma_avoid_banks_room_at_bottom(s: GameView)
    requires
        s.step(Action::Avoid).1 is Ok,
        s.deck.len() >= ROOM_SIZE,
    ensures
        s.step(Action::Avoid).0.deck == s.room + s.deck.take(s.deck.len() - ROOM_SIZE),
        s.step(Action::Avoid).0.room == top_drawn(s.deck, ROOM_SIZE as int),
        s.step(Action::Avoid).0.status == Status::Playing,
{
    let m = GameView {
        deck: s.room + s.deck,
        room: Seq::empty(),
        avoided_previous: true,
        potion_used: false,
        resolved_this_cycle: 0,
        turns: s.turns + 1,
        ..s
    };
    let n = s.deck.len() as int;
    assert(m.draw_count() == ROOM_SIZE);
    assert(m.filled().deck =~= s.room + s.deck.take(n - ROOM_SIZE));
    assert(m.filled().room =~= top_drawn(s.deck, ROOM_SIZE as int));
}

/// Playing a card (fighting, equipping or drinking) takes exactly one card
/// out of the dungeon; avoiding takes none.
pub proof fn lemma_moves_shrink_dungeon(s: GameView, action: Action)
    requires
        s.step(action).1 is Ok,
    ensures
        action is Avoid ==> s.step(action).0.dungeon_size() == s.dungeon_size(),
        !(action is Avoid) ==> s.step(action).0.dungeon_size() == s.dungeon_size() - 1,
{
    match action {
        Action::Fight { index, use_weapon } => {
            let i = index as int;
            let card = s.room[i];
            let damage: u8 = if use_weapon {
                blade_damage(card.rank, s.weapon->0.card.rank)
            } else {
                card.rank
            };
            let m = GameView {
                weapon: if use_weapon {
                    Some(WeaponView { card: s.weapon->0.card, slain: s.weapon->0.slain.push(card) })
                } else {
                    s.weapon
                },
                discard: if use_weapon { s.discard } else { s.discard.push(card) },
                room: s.room.remove(i),
                health: s.health - damage,
                monsters_slain: s.monsters_slain + 1,
                last_resolved: Some(card),
                ..s
            };
            lemma_resolved_conserves(m, seq![GameEvent::Fought { monster: card, with_weapon: use_weapon, damage }]);
        },
        Action::Equip(index) => {
            let i = index as int;
            let card = s.room[i];
            let m = GameView {
                weapon: Some(WeaponView { card, slain: Seq::empty() }),
                discard: match s.weapon {
                    Some(w) => s.discard.push(w.card) + w.slain,
                    None => s.discard,
                },
                room: s.room.remove(i),
                last_resolved: Some(card),
                ..s
            };
            let discarded = match s.weapon {
                Some(w) => Some(w.card),
                None => None,
            };
            lemma_resolved_conserves(m, seq![GameEvent::Equipped { weapon: card, discarded }]);
        },
        Action::Drink(index) => {
            let i = index as int;
            let card = s.room[i];
            let healed_to = if s.health + card.rank > MAX_HEALTH {
                MAX_HEALTH as int
            } else {
                s.health + card.rank
            };
            let new_health = if s.potion_used { s.health } else { healed_to };
            let healed: u8 = if s.potion_used { 0 } else { (healed_to - s.health) as u8 };
            let m = GameView {
                health: new_health,
                potion_used: true,
                discard: s.discard.push(card),
                room: s.room.remove(i),
                last_resolved: Some(card),
                ..s
            };
            lemma_resolved_conserves(m, seq![GameEvent::Drank { potion: card, healed, wasted: s.potion_used }]);
        },
        Action::Avoid => {
            let m = GameView {
                deck: s.room + s.deck,
                room: Seq::empty(),
                avoided_previous: true,
                potion_used: false,
                resolved_this_cycle: 0,
                turns: s.turns + 1,
                ..s
            };
            lemma_filled_conserves(m);
        },
    }
}

// ---------------------------------------------------------------------------
// Potions and weapons
// ---------------------------------------------------------------------------

/// Only the first potion of a room cycle has any effect: a later one leaves
/// health unchanged and is reported as wasted.
pub proof fn lemma_second_potion_is_wasted(s: GameView, index: usize)
    requires
        s.potion_used,
        s.step(Action::Drink(index)).1 is Ok,
    ensures
        s.step(Action::Drink(index)).0.health == s.health,
        s.step(Action::Drink(index)).1->Ok_0[0] == (GameEvent::Drank {
            potion: s.room[index as int],
            healed: 0,
            wasted: true,
        }),
{
}

/// The first potion of a room cycle heals by its value, never above the
/// maximum.
pub proof fn lemma_first_potion_heals(s: GameView, index: usize)
    requires
        !s.potion_used,
        s.step(Action::Drink(index)).1 is Ok,
    ensures
        s.step(Action::Drink(index)).0.health == if s.health + s.room[index as int].rank > MAX_HEALTH {
            MAX_HEALTH as int
        } else {
            s.health + s.room[index as int].rank
        },
{
}

/// A fight costs health equal to the monster's value bare-handed, and its
/// value minus the weapon's (floored at zero) with a weapon; a weapon never
/// makes a fight cost more.
pub proof fn lemma_fight_damage(s: GameView, index: usize, use_weapon: bool)
    requires
        s.step(Action::Fight { index, use_weapon }).1 is Ok,
    ensures
        s.step(Action::Fight { index, use_weapon }).0.health == s.health - if use_weapon {
            blade_damage(s.room[index as int].rank, s.weapon->0.card.rank) as int
        } else {
            s.room[index as int].rank as int
        },
        blade_damage(s.room[index as int].rank, s.weapon->0.card.rank) <= s.room[index as int].rank,
{
}

/// A weapon that slew a monster binds: under the strict rule it can no
/// longer reach a monster of that value or more, under the equal rule no
/// monster of more than that value.
pub proof fn lemma_weapon_binds(s: GameView, index: usize)
    requires
        s.step(Action::Fight { index, use_weapon: true }).1 is Ok,
        s.step(Action::Fight { index, use_weapon: true }).0.weapon is Some,
    ensures
        ({
            let w = s.step(Action::Fight { index, use_weapon: true }).0.weapon->0;
            let v = s.room[index as int].rank;
            &&& w.bound() == Some(v)
            &&& forall|m: u8| #[trigger] w.can_reach(m, s.rule) <==> (if s.rule == WeaponRule::Strict { m < v } else { m <= v })
        }),
{
    let card = s.room[index as int];
    let damage = blade_damage(card.rank, s.weapon->0.card.rank);
    let m = GameView {
        weapon: Some(WeaponView { card: s.weapon->0.card, slain: s.weapon->0.slain.push(card) }),
        room: s.room.remove(index as int),
        health: s.health - damage,
        monsters_slain: s.monsters_slain + 1,
        last_resolved: Some(card),
        ..s
    };
    let t = GameView { turns: m.turns + 1, resolved_this_cycle: m.resolved_this_cycle + 1, ..m };
    lemma_filled_shape(t);
}

// ---------------------------------------------------------------------------
// Opening and scoring
// ---------------------------------------------------------------------------

/// A fresh game is valid, holds exactly the cards of its deck, deals a full
/// room when the deck has at least four cards, and starts at full health.
pub proof fn lemma_opening(seed: u64, rule: WeaponRule, deck: Seq<Card>)
    ensures
        GameView::opening(seed, rule, deck).valid(),
        GameView::opening(seed, rule, deck).cards() == deck.to_multiset(),
        GameView::opening(seed, rule, deck).dungeon_size() == deck.len(),
        deck.len() >= ROOM_SIZE ==> GameView::opening(seed, rule, deck).room.len() == ROOM_SIZE,
        GameView::opening(seed, rule, deck).health == MAX_HEALTH,
        GameView::opening(seed, rule, deck).status == Status::Playing,
{
    broadcast use vstd::seq_lib::group_to_multiset_ensures;
    let g = GameView {
        seed,
        rule,
        health: MAX_HEALTH as int,
        deck,
        room: Seq::empty(),
        discard: Seq::empty(),
        weapon: None,
        status: Status::Playing,
        potion_used: false,
        avoided_previous: false,
        resolved_this_cycle: 0,
        last_resolved: None,
        rooms_cleared: 0,
        monsters_slain: 0,
        turns: 0,
    };
    lemma_filled_conserves(g);
    lemma_filled_shape(g);
    assert(g.cards() =~= deck.to_multiset());
}

/// A won game scores its remaining health, plus the last card's value when
/// it ended at full health on a potion: always positive.
pub proof fn lemma_win_score(s: GameView)
    requires
        s.valid(),
        s.status == Status::Won,
    ensures
        s.score() >= s.health > 0,
        s.health < MAX_HEALTH ==> s.score() == s.health,
{
}

/// A lost game scores its health (zero or less) minus the value of every
/// monster still in the deck or the room: never positive.
pub proof fn lemma_loss_score(s: GameView)
    requires
        s.valid(),
        s.status == Status::Lost,
    ensures
        s.score() <= 0,
        s.score() == s.health - monster_total(s.deck) - monster_total(s.room),
{
    lemma_monster_total_prefix(s.deck, 0);
    lemma_monster_total_prefix(s.room, 0);
}


// ---------------------------------------------------------------------------
// Room cycles
// ---------------------------------------------------------------------------

/// The bookkeeping after the third card of a room: when one card is left
/// and the deck is not empty, that card carries over and fresh cards fill
/// the room, beginning a new room cycle.
proof fn lemma_refill_after_resolve(m: GameView, events: Seq<GameEvent>)
    requires
        m.room.len() == 1,
        m.deck.len() > 0,
        m.health > 0,
    ensures
        ({
            let r = m.resolved(events).0;
            &&& r.room.len() == 1 + if m.deck.len() < 3 { m.deck.len() as int } else { 3 }
            &&& r.room[0] == m.room[0]
            &&& r.rooms_cleared == m.rooms_cleared + 1
            &&& !r.potion_used
            &&& r.resolved_this_cycle == 0
            &&& !r.avoided_previous
        }),
{
    let t = GameView { turns: m.turns + 1, resolved_this_cycle: m.resolved_this_cycle + 1, ..m };
    lemma_filled_shape(t);
}

/// A room is played down to one card: playing the second-to-last card of a
/// room (and surviving) carries the last card into a new room refilled from
/// the deck, with a fresh potion allowance and avoiding allowed again.
pub proof fn lemma_last_card_carries_over(s: GameView, action: Action)
    requires
        !(action is Avoid),
        s.step(action).1 is Ok,
        s.room.len() == 2,
        s.deck.len() > 0,
        s.step(action).0.status != Status::Lost,
    ensures
        ({
            let r = s.step(action).0;
            let played: int = match action {
                Action::Fight { index, .. } => index as int,
                Action::Equip(index) => index as int,
                Action::Drink(index) => index as int,
                Action::Avoid => 0,
            };
            &&& r.room.len() == 1 + if s.deck.len() < 3 { s.deck.len() as int } else { 3 }
            &&& r.room[0] == s.room[1 - played]
            &&& r.rooms_cleared == s.rooms_cleared + 1
            &&& !r.potion_used
            &&& r.resolved_this_cycle == 0
            &&& !r.avoided_previous
        }),
{
    match action {
        Action::Fight { index, use_weapon } => {
            let i = index as int;
            let card = s.room[i];
            let damage: u8 = if use_weapon {
                blade_damage(card.rank, s.weapon->0.card.rank)
            } else {
                card.rank
            };
            let m = GameView {
                weapon: if use_weapon {
                    Some(WeaponView { card: s.weapon->0.card, slain: s.weapon->0.slain.push(card) })
                } else {
                    s.weapon
                },
                discard: if use_weapon { s.discard } else { s.discard.push(card) },
                room: s.room.remove(i),
                health: s.health - damage,
                monsters_slain: s.monsters_slain + 1,
                last_resolved: Some(card),
                ..s
            };
            lemma_refill_after_resolve(m, seq![GameEvent::Fought { monster: card, with_weapon: use_weapon, damage }]);
        },
        Action::Equip(index) => {
            let i = index as int;
            let card = s.room[i];
            let m = GameView {
                weapon: Some(WeaponView { card, slain: Seq::empty() }),
                discard: match s.weapon {
                    Some(w) => s.discard.push(w.card) + w.slain,
                    None => s.discard,
                },
                room: s.room.remove(i),
                last_resolved: Some(card),
                ..s
            };
            let discarded = match s.weapon {
                Some(w) => Some(w.card),
                None => None,
            };
            lemma_refill_after_resolve(m, seq![GameEvent::Equipped { weapon: card, discarded }]);
        },
        Action::Drink(index) => {
            let i = index as int;
            let card = s.room[i];
            let healed_to = if s.health + card.rank > MAX_HEALTH {
                MAX_HEALTH as int
            } else {
                s.health + card.rank
            };
            let new_health = if s.potion_used { s.health } else { healed_to };
            let healed: u8 = if s.potion_used { 0 } else { (healed_to - s.health) as u8 };
            let m = GameView {
                health: new_health,
                potion_used: true,
                discard: s.discard.push(card),
                room: s.room.remove(i),
                last_resolved: Some(card),
                ..s
            };
            lemma_refill_after_resolve(m, seq![GameEvent::Drank { potion: card, healed, wasted: s.potion_used }]);
        },
        Action::Avoid => {},
    }
}


// ---------------------------------------------------------------------------
// A game never outgrows its counters
// ---------------------------------------------------------------------------

impl GameView {
    /// An upper bound on the turns a game can still take: each played card
    /// costs one turn and leaves the dungeon, and an avoid costs one turn and
    /// uses up the allowance that only a played room gives back.
    pub open spec fn turn_budget(self) -> int {
        self.turns + 2 * self.dungeon_size() + if self.avoided_previous { 0int } else { 1 }
    }

    /// A valid game of at most 44 cards' worth of turns, with its counters
    /// and health in the range play can reach.
    pub open spec fn within_budget(self) -> bool {
        &&& self.valid()
        &&& self.turn_budget() <= 2 * crate::deck::DECK_SIZE + 1
        &&& 0 <= self.monsters_slain <= self.turns
        &&& 0 <= self.rooms_cleared <= self.turns
        &&& self.resolved_this_cycle + self.room.len() <= ROOM_SIZE
        &&& self.health >= -254
    }
}

/// A game within budget can make any move without overflowing.
pub proof fn lemma_budget_fits_machine(s: GameView)
    requires
        s.within_budget(),
    ensures
        s.fits_machine(),
{
}

proof fn lemma_resolved_budget(m: GameView, events: Seq<GameEvent>)
    ensures
        m.resolved(events).0.turns == m.turns + 1,
        m.resolved(events).0.turn_budget() <= m.turn_budget() + 2,
        m.resolved(events).0.rooms_cleared <= m.rooms_cleared + 1,
        m.resolved(events).0.monsters_slain == m.monsters_slain,
        m.resolved(events).0.health == m.health,
{
    let t = GameView { turns: m.turns + 1, resolved_this_cycle: m.resolved_this_cycle + 1, ..m };
    lemma_filled_conserves(t);
    lemma_filled_shape(t);
}

/// Every move keeps a game within budget.
pub proof fn lemma_step_keeps_budget(s: GameView, action: Action)
    requires
        s.within_budget(),
    ensures
        s.step(action).0.within_budget(),
{
    lemma_step_preserves_valid(s, action);
    if s.status != Status::Playing || s.step(action).1 is Err {
        return;
    }
    match action {
        Action::Fight { index, use_weapon } => {
            let i = index as int;
            let card = s.room[i];
            let damage: u8 = if use_weapon {
                blade_damage(card.rank, s.weapon->0.card.rank)
            } else {
                card.rank
            };
            let m = GameView {
                weapon: if use_weapon {
                    Some(WeaponView { card: s.weapon->0.card, slain: s.weapon->0.slain.push(card) })
                } else {
                    s.weapon
                },
                discard: if use_weapon { s.discard } else { s.discard.push(card) },
                room: s.room.remove(i),
                health: s.health - damage,
                monsters_slain: s.monsters_slain + 1,
                last_resolved: Some(card),
                ..s
            };
            lemma_resolved_budget(m, seq![GameEvent::Fought { monster: card, with_weapon: use_weapon, damage }]);
        },
        Action::Equip(index) => {
            let i = index as int;
            let card = s.room[i];
            let m = GameView {
                weapon: Some(WeaponView { card, slain: Seq::empty() }),
                discard: match s.weapon {
                    Some(w) => s.discard.push(w.card) + w.slain,
                    None => s.discard,
                },
                room: s.room.remove(i),
                last_resolved: Some(card),
                ..s
            };
            let discarded = match s.weapon {
                Some(w) => Some(w.card),
                None => None,
            };
            lemma_resolved_budget(m, seq![GameEvent::Equipped { weapon: card, discarded }]);
        },
        Action::Drink(index) => {
            let i = index as int;
            let card = s.room[i];
            let healed_to = if s.health + card.rank > MAX_HEALTH {
                MAX_HEALTH as int
            } else {
                s.health + card.rank
            };
            let new_health = if s.potion_used { s.health } else { healed_to };
            let healed: u8 = if s.potion_used { 0 } else { (healed_to - s.health) as u8 };
            let m = GameView {
                health: new_health,
                potion_used: true,
                discard: s.discard.push(card),
                room: s.room.remove(i),
                last_resolved: Some(card),
                ..s
            };
            lemma_resolved_budget(m, seq![GameEvent::Drank { potion: card, healed, wasted: s.potion_used }]);
        },
        Action::Avoid => {
            let m = GameView {
                deck: s.room + s.deck,
                room: Seq::empty(),
                avoided_previous: true,
                potion_used: false,
                resolved_this_cycle: 0,
                turns: s.turns + 1,
                ..s
            };
            lemma_filled_conserves(m);
            lemma_filled_shape(m);
        },
    }
}

/// A fresh game on a deck of at most 44 cards is within budget.
pub proof fn lemma_opening_within_budget(seed: u64, rule: WeaponRule, deck: Seq<Card>)
    requires
        deck.len() <= crate::deck::DECK_SIZE,
    ensures
        GameView::opening(seed, rule, deck).within_budget(),
{
    lemma_opening(seed, rule, deck);
    let g = GameView {
        seed,
        rule,
        health: MAX_HEALTH as int,
        deck,
        room: Seq::empty(),
        discard: Seq::empty(),
        weapon: None,
        status: Status::Playing,
        potion_used: false,
        avoided_previous: false,
        resolved_this_cycle: 0,
        last_resolved: None,
        rooms_cleared: 0,
        monsters_slain: 0,
        turns: 0,
    };
    lemma_filled_shape(g);
}

// ---------------------------------------------------------------------------
// The win bonus
// ---------------------------------------------------------------------------

/// A won game scores exactly its remaining health. The one exception: a game
/// won at full health whose last resolved card was a potion (a heart) adds
/// that potion's value. A last card of any other suit, or any health below
/// the maximum, earns no bonus.
pub proof fn lemma_win_bonus_only_for_a_potion(s: GameView)
    requires
        s.status == Status::Won,
    ensures
        s.score() >= s.health,
        s.score() > s.health ==> s.health == MAX_HEALTH && s.last_resolved is Some
            && s.last_resolved->0.suit == Suit::Hearts,
        !(s.last_resolved is Some && s.last_resolved->0.suit == Suit::Hearts) ==> s.score() == s.health,
        s.health != MAX_HEALTH ==> s.score() == s.health,
        s.health == MAX_HEALTH && s.last_resolved is Some && s.last_resolved->0.suit == Suit::Hearts
            ==> s.score() == MAX_HEALTH + s.last_resolved->0.rank,
{
}

} // verus!
