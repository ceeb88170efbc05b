use blackguard::card::{Card, Suit};
use blackguard::game::{
    Action, GameEvent, GameState, MoveError, Status, Weapon, MAX_HEALTH, ROOM_SIZE,
};
use blackguard::rules::WeaponRule;

/// A deterministic state with a hand-picked deck and room, so tests don't
/// depend on shuffle order. `deck` is bottom->top; `room` is dealt.
fn rigged(room: Vec<Card>, deck: Vec<Card>) -> GameState {
    GameState {
        seed: 0,
        rule: WeaponRule::Strict,
        health: MAX_HEALTH,
        deck,
        room,
        discard: Vec::new(),
        weapon: None,
        status: Status::Playing,
        potion_used: false,
        avoided_previous: false,
        resolved_this_cycle: 0,
        last_resolved: None,
        rooms_cleared: 0,
        monsters_slain: 0,
        turns: 0,
    }
}

fn mon(v: u8) -> Card {
    Card::new(Suit::Spades, v)
}
fn wpn(v: u8) -> Card {
    Card::new(Suit::Diamonds, v)
}
fn pot(v: u8) -> Card {
    Card::new(Suit::Hearts, v)
}

#[test]
fn new_game_deals_four_and_full_health() {
    let g = GameState::new(1, WeaponRule::Strict);
    assert_eq!(g.room.len(), 4);
    assert_eq!(g.deck.len(), 40);
    assert_eq!(g.health, 20);
    assert_eq!(g.status, Status::Playing);
}

#[test]
fn barehanded_takes_full_damage() {
    let mut g = rigged(vec![mon(9), pot(5), mon(3), wpn(4)], vec![]);
    g.apply(Action::Fight { index: 0, use_weapon: false }).unwrap();
    assert_eq!(g.health, 11);
    assert_eq!(g.discard, vec![mon(9)]);
}

#[test]
fn weapon_reduces_damage_and_binds() {
    let mut g = rigged(vec![mon(9), pot(5), mon(3), wpn(4)], vec![]);
    g.apply(Action::Equip(3)).unwrap();
    g.apply(Action::Fight { index: 0, use_weapon: true }).unwrap();
    assert_eq!(g.health, 20 - (9 - 4));
    let w = g.weapon.as_ref().unwrap();
    assert_eq!(w.bound(), Some(9));
}

#[test]
fn weapon_damage_floors_at_zero() {
    let mut g = rigged(vec![wpn(10), mon(3), pot(2), mon(2)], vec![]);
    g.apply(Action::Equip(0)).unwrap();
    g.apply(Action::Fight { index: 0, use_weapon: true }).unwrap();
    assert_eq!(g.health, 20); // 3 - 10 -> 0 damage
}

#[test]
fn strict_rule_blocks_equal_value_monster() {
    let mut g = rigged(vec![wpn(6), mon(8), mon(8), pot(2)], vec![]);
    g.rule = WeaponRule::Strict;
    g.apply(Action::Equip(0)).unwrap();
    g.apply(Action::Fight { index: 0, use_weapon: true }).unwrap(); // slay first 8, bound = 8
    let err = g.apply(Action::Fight { index: 0, use_weapon: true });
    assert_eq!(err, Err(MoveError::WeaponCantReach));
}

#[test]
fn equal_rule_allows_equal_value_monster() {
    let mut g = rigged(vec![wpn(6), mon(8), mon(8), pot(2)], vec![]);
    g.rule = WeaponRule::Equal;
    g.apply(Action::Equip(0)).unwrap();
    g.apply(Action::Fight { index: 0, use_weapon: true }).unwrap();
    assert!(g.apply(Action::Fight { index: 0, use_weapon: true }).is_ok());
}

#[test]
fn equipping_replaces_and_discards_old_weapon_with_its_stack() {
    let mut g = rigged(vec![wpn(5), mon(4), wpn(8), pot(2)], vec![]);
    g.apply(Action::Equip(0)).unwrap(); // equip 5
    g.apply(Action::Fight { index: 0, use_weapon: true }).unwrap(); // slay 4 with it
    // Now equip the 8; old weapon (5) and its slain (4) go to discard.
    g.apply(Action::Equip(0)).unwrap();
    let w = g.weapon.as_ref().unwrap();
    assert_eq!(w.card, wpn(8));
    assert!(w.slain.is_empty());
    assert!(g.discard.contains(&wpn(5)));
    assert!(g.discard.contains(&mon(4)));
}

#[test]
fn potion_heals_but_only_first_per_room() {
    let mut g = rigged(vec![pot(5), pot(7), mon(3), mon(2)], vec![]);
    g.health = 10;
    g.apply(Action::Drink(0)).unwrap();
    assert_eq!(g.health, 15);
    let ev = g.apply(Action::Drink(0)).unwrap(); // second potion this room
    assert_eq!(g.health, 15); // no effect
    assert!(matches!(ev[0], GameEvent::Drank { wasted: true, .. }));
}

#[test]
fn potion_cannot_exceed_max_health() {
    let mut g = rigged(vec![pot(10), mon(3), mon(2), mon(2)], vec![]);
    g.health = 18;
    g.apply(Action::Drink(0)).unwrap();
    assert_eq!(g.health, 20);
}

#[test]
fn cannot_avoid_twice_in_a_row() {
    // Enough deck so avoid can deal fresh rooms.
    let deck: Vec<Card> = (2..=10).map(mon).chain((2..=6).map(mon)).collect();
    let mut g = rigged(vec![mon(14), mon(13), mon(12), mon(11)], deck);
    assert!(g.can_avoid());
    g.apply(Action::Avoid).unwrap();
    assert!(!g.can_avoid());
    assert_eq!(g.apply(Action::Avoid), Err(MoveError::CantAvoid));
}

#[test]
fn cannot_avoid_after_playing_a_card() {
    let mut g = rigged(vec![pot(5), mon(3), mon(2), mon(2)], vec![mon(4), mon(5)]);
    g.apply(Action::Drink(0)).unwrap();
    assert!(!g.can_avoid());
}

#[test]
fn avoid_moves_room_to_bottom_and_deals_fresh() {
    let deck = vec![mon(2), mon(3), mon(4), mon(5)]; // bottom..top
    let mut g = rigged(vec![pot(6), pot(7), pot(8), pot(9)], deck);
    g.apply(Action::Avoid).unwrap();
    // Fresh room is the top four of the deck (5,4,3,2).
    assert_eq!(g.room, vec![mon(5), mon(4), mon(3), mon(2)]);
    // The avoided potions now sit at the bottom.
    assert_eq!(&g.deck, &vec![pot(6), pot(7), pot(8), pot(9)]);
}

#[test]
fn room_refills_after_three_resolved() {
    let mut g = rigged(vec![mon(2), mon(2), mon(2), mon(2)], vec![pot(9), pot(8), pot(7)]);
    for _ in 0..3 {
        g.apply(Action::Fight { index: 0, use_weapon: false }).unwrap();
    }
    // One carried over + three drawn = full room again.
    assert_eq!(g.room.len(), 4);
    assert_eq!(g.rooms_cleared, 1);
}

#[test]
fn death_sets_lost_and_negative_score() {
    let mut g = rigged(vec![mon(14), mon(13), mon(12), mon(11)], vec![mon(10), mon(9)]);
    g.health = 5;
    let ev = g.apply(Action::Fight { index: 0, use_weapon: false }).unwrap();
    assert!(ev.contains(&GameEvent::Lost));
    assert_eq!(g.status, Status::Lost);
    // health 5 - 14 = -9; remaining monsters 13+12+11+10+9 = 55; score = -9 - 55
    assert_eq!(g.score(), -9 - 55);
}

#[test]
fn clearing_the_dungeon_wins_with_health_as_score() {
    // Small dungeon: 4 harmless potions, empty deck.
    let mut g = rigged(vec![pot(2), pot(2), pot(2), pot(2)], vec![]);
    g.health = 12;
    for _ in 0..4 {
        g.apply(Action::Drink(0)).unwrap();
    }
    assert_eq!(g.status, Status::Won);
    assert_eq!(g.score(), g.health);
}

#[test]
fn full_health_potion_finish_grants_bonus() {
    // Clear the dungeon while at max health with the last card a potion:
    // score is 20 + that potion's value (the only way to exceed 20).
    let mut g = rigged(vec![pot(2), pot(2), pot(2), pot(5)], vec![]);
    g.health = 20;
    for _ in 0..4 {
        g.apply(Action::Drink(0)).unwrap();
    }
    assert_eq!(g.status, Status::Won);
    assert_eq!(g.score(), 25);
}

// ---- further scenarios and one concrete case per law ----

fn all_cards(g: &GameState) -> Vec<(u8, u8)> {
    let mut v: Vec<(u8, u8)> = Vec::new();
    for c in g.deck.iter().chain(g.room.iter()).chain(g.discard.iter()) {
        v.push((c.suit as u8, c.rank));
    }
    if let Some(w) = &g.weapon {
        v.push((w.card.suit as u8, w.card.rank));
        for c in &w.slain {
            v.push((c.suit as u8, c.rank));
        }
    }
    v.sort();
    v
}

#[test]
fn moves_conserve_every_card() {
    let mut g = GameState::new(11, WeaponRule::Strict);
    let before = all_cards(&g);
    assert_eq!(before.len(), 44);
    for _ in 0..60 {
        if g.is_over() {
            break;
        }
        // Play the first playable card: drink, equip, or fight bare-handed.
        let c = g.room[0];
        let action = if c.is_potion() {
            Action::Drink(0)
        } else if c.is_weapon() {
            Action::Equip(0)
        } else {
            Action::Fight { index: 0, use_weapon: g.weapon_reaches(0) }
        };
        g.apply(action).unwrap();
        assert_eq!(all_cards(&g), before);
        assert!(g.room.len() <= ROOM_SIZE);
        assert!(g.health <= MAX_HEALTH);
    }
}

#[test]
fn refused_moves_leave_the_state_untouched() {
    let g0 = rigged(vec![mon(9), pot(5), mon(3), wpn(4)], vec![mon(2)]);
    let mut g = g0.clone();
    assert_eq!(g.apply(Action::Fight { index: 7, use_weapon: false }), Err(MoveError::OutOfBounds));
    assert_eq!(g.apply(Action::Drink(0)), Err(MoveError::WrongKind));
    assert_eq!(g.apply(Action::Equip(1)), Err(MoveError::WrongKind));
    assert_eq!(g.apply(Action::Fight { index: 1, use_weapon: false }), Err(MoveError::WrongKind));
    assert_eq!(g.apply(Action::Fight { index: 0, use_weapon: true }), Err(MoveError::NoWeapon));
    assert_eq!(g, g0);
}

#[test]
fn game_over_refuses_every_move() {
    let mut g = rigged(vec![mon(9), pot(5), mon(3), wpn(4)], vec![]);
    g.status = Status::Lost;
    let g0 = g.clone();
    assert_eq!(g.apply(Action::Drink(1)), Err(MoveError::GameOver));
    assert_eq!(g.apply(Action::Avoid), Err(MoveError::GameOver));
    assert_eq!(g, g0);
    assert!(g.is_over());
}

#[test]
fn avoid_needs_a_full_room() {
    let mut g = rigged(vec![mon(9), pot(5), mon(3)], vec![mon(2)]);
    assert!(!g.can_avoid());
    assert_eq!(g.apply(Action::Avoid), Err(MoveError::CantAvoid));
}

#[test]
fn fight_events_and_counters() {
    let mut g = rigged(vec![mon(9), pot(5), mon(3), wpn(4)], vec![]);
    let ev = g.apply(Action::Fight { index: 2, use_weapon: false }).unwrap();
    assert_eq!(ev, vec![GameEvent::Fought { monster: mon(3), with_weapon: false, damage: 3 }]);
    assert_eq!(g.monsters_slain, 1);
    assert_eq!(g.turns, 1);
    assert_eq!(g.resolved_this_cycle, 1);
    assert_eq!(g.last_resolved, Some(mon(3)));
    let ev = g.apply(Action::Equip(2)).unwrap();
    assert_eq!(ev, vec![GameEvent::Equipped { weapon: wpn(4), discarded: None }]);
    let ev = g.apply(Action::Drink(1)).unwrap();
    assert_eq!(ev, vec![GameEvent::Drank { potion: pot(5), healed: 3, wasted: false }]);
    assert_eq!(g.health, 20);
}

#[test]
fn weapon_binding_under_strict_rule() {
    let mut g = rigged(vec![wpn(9), mon(13), mon(10), mon(10)], vec![mon(2), mon(3), mon(4)]);
    g.apply(Action::Equip(0)).unwrap();
    g.apply(Action::Fight { index: 0, use_weapon: true }).unwrap(); // 13, bound 13
    g.apply(Action::Fight { index: 0, use_weapon: true }).unwrap(); // 10 < 13, bound 10
    assert_eq!(g.weapon.as_ref().unwrap().bound(), Some(10));
    assert!(!g.weapon_reaches(0));
    assert_eq!(
        g.apply(Action::Fight { index: 0, use_weapon: true }),
        Err(MoveError::WeaponCantReach)
    );
    let w = Weapon { card: wpn(9), slain: vec![mon(13), mon(10)] };
    assert!(w.can_reach(9, WeaponRule::Strict));
    assert!(!w.can_reach(10, WeaponRule::Strict));
    assert!(w.can_reach(10, WeaponRule::Equal));
}

#[test]
fn refilled_room_keeps_the_carried_card_first() {
    let mut g = rigged(vec![mon(2), mon(3), mon(4), mon(5)], vec![pot(9), pot(8), pot(7)]);
    for _ in 0..3 {
        g.apply(Action::Fight { index: 0, use_weapon: false }).unwrap();
    }
    assert_eq!(g.room, vec![mon(5), pot(7), pot(8), pot(9)]);
    assert!(g.deck.is_empty());
    assert!(!g.potion_used());
    assert!(g.can_avoid());
}

#[test]
fn score_while_playing_is_health() {
    let mut g = rigged(vec![mon(9)], vec![]);
    g.health = 7;
    assert_eq!(g.score(), 7);
}

#[test]
fn from_deck_deals_the_top_of_the_deck() {
    let g = GameState::from_deck(5, WeaponRule::Equal, vec![mon(2), mon(3), mon(4), mon(5), mon(6)]);
    assert_eq!(g.room, vec![mon(6), mon(5), mon(4), mon(3)]);
    assert_eq!(g.deck, vec![mon(2)]);
    assert_eq!(g.seed, 5);
    assert_eq!(g.rule, WeaponRule::Equal);
}

#[test]
fn new_game_is_reproducible_from_its_seed() {
    let a = GameState::new(99, WeaponRule::Strict);
    let b = GameState::new(99, WeaponRule::Strict);
    assert_eq!(a, b);
}

#[test]
fn a_whole_game_stays_within_its_turn_budget() {
    for seed in 0..20u64 {
        let mut g = GameState::new(seed, WeaponRule::Equal);
        let mut avoided = false;
        while !g.is_over() {
            let action = if !avoided && g.can_avoid() {
                Action::Avoid
            } else if let Some(i) = (0..g.room.len()).find(|&i| g.room[i].is_potion()) {
                Action::Drink(i)
            } else if let Some(i) = (0..g.room.len()).find(|&i| g.room[i].is_weapon()) {
                Action::Equip(i)
            } else {
                Action::Fight { index: 0, use_weapon: g.weapon_reaches(0) }
            };
            avoided = matches!(action, Action::Avoid);
            g.apply(action).unwrap();
            assert!(g.turns <= 89);
            assert!(g.resolved_this_cycle as usize + g.room.len() <= ROOM_SIZE);
        }
        assert!(g.status == Status::Won || g.health <= 0);
    }
}
