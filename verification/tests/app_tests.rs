use blackguard::app::{explain, label, outcome, App, Cue, Key, Tone};
use blackguard::card::{Card, Suit};
use blackguard::game::{GameState, MoveError, Status, MAX_HEALTH};
use blackguard::help::PAGE_COUNT;
use blackguard::rules::WeaponRule;
use blackguard::stats::Stats;

fn mon(v: u8) -> Card {
    Card::new(Suit::Spades, v)
}
fn wpn(v: u8) -> Card {
    Card::new(Suit::Diamonds, v)
}
fn pot(v: u8) -> Card {
    Card::new(Suit::Hearts, v)
}

fn rigged(room: Vec<Card>, deck: Vec<Card>) -> GameState {
    GameState {
        seed: 0,
        rule: WeaponRule::Strict,
        health: MAX_HEALTH,
        deck,
        room,
        discard: Vec::new(),
        weapon: None,
        status: Status::Playing,
        potion_used: false,
        avoided_previous: false,
        resolved_this_cycle: 0,
        last_resolved: None,
        rooms_cleared: 0,
        monsters_slain: 0,
        turns: 0,
    }
}

fn app_with(game: GameState) -> App {
    let mut app = App::new(7, WeaponRule::Strict, Stats::default());
    app.game = game;
    app
}

#[test]
fn new_app_announces_the_dungeon() {
    let app = App::new(7, WeaponRule::Strict, Stats::default());
    assert_eq!(app.log.len(), 1);
    assert_eq!(app.log[0].text, "Dungeon opened — seed 7, strict weapons.");
    assert_eq!(app.log[0].tone, Tone::Dim);
    assert_eq!(app.selected, 0);
    assert_eq!(app.game.room.len(), 4);
    assert!(!app.show_help && !app.should_quit && app.flash.is_none());
}

#[test]
fn labels_explanations_and_outcomes() {
    assert_eq!(label(Card::new(Suit::Diamonds, 10)), "10♦");
    assert_eq!(label(Card::new(Suit::Spades, 13)), "K♠");
    assert_eq!(explain(MoveError::OutOfBounds), "No card there.");
    assert_eq!(explain(MoveError::NoWeapon), "You have no weapon equipped.");
    assert_eq!(explain(MoveError::WrongKind), "You can't do that with this card.");
    assert_eq!(
        explain(MoveError::WeaponCantReach),
        "Your weapon is bound — it can't reach a monster that strong."
    );
    assert_eq!(explain(MoveError::CantAvoid), "You can't avoid now (already played or just avoided).");
    assert_eq!(explain(MoveError::GameOver), "The game is over — press n for a new dungeon.");
    assert_eq!(outcome(Status::Won), Some("VICTORY"));
    assert_eq!(outcome(Status::Lost), Some("YOU DIED"));
    assert_eq!(outcome(Status::Playing), None);
}

#[test]
fn selection_wraps_around_the_room() {
    let mut app = app_with(rigged(vec![mon(9), pot(5), mon(3), wpn(4)], vec![]));
    app.on_key(Key::Left);
    assert_eq!(app.selected, 3);
    app.on_key(Key::Right);
    assert_eq!(app.selected, 0);
    app.on_key(Key::Char('l'));
    assert_eq!(app.selected, 1);
    assert_eq!(app.selected_card(), Some(pot(5)));
}

#[test]
fn help_overlay_navigation() {
    let mut app = app_with(rigged(vec![mon(9), pot(5), mon(3), wpn(4)], vec![]));
    app.on_key(Key::Char('?'));
    assert!(app.show_help);
    assert_eq!(app.help_page, 0);
    app.on_key(Key::Left);
    assert_eq!(app.help_page, 0);
    for _ in 0..20 {
        app.on_key(Key::Enter);
    }
    assert_eq!(app.help_page, PAGE_COUNT - 1);
    // Game keys are captured by the overlay.
    app.on_key(Key::Char('b'));
    assert_eq!(app.game.room.len(), 4);
    app.on_key(Key::Esc);
    assert!(!app.show_help);
    assert!(!app.should_quit);
    app.on_key(Key::Char('q'));
    assert!(app.should_quit);
}

#[test]
fn enter_uses_the_selected_card() {
    let mut app = app_with(rigged(vec![mon(9), pot(5), mon(3), wpn(4)], vec![]));
    app.game.health = 10;
    app.selected = 1;
    let cues = app.on_key(Key::Enter);
    assert!(cues.is_empty());
    assert_eq!(app.game.health, 15);
    let last = app.log.last().unwrap();
    assert_eq!(last.text, "Drank 5♥ (+5 HP)");
    assert_eq!(last.tone, Tone::Good);
    // Equip the weapon, then the smart fight uses it.
    app.selected = 2;
    app.on_key(Key::Enter);
    assert_eq!(app.game.weapon.as_ref().unwrap().card, wpn(4));
    assert_eq!(app.log.last().unwrap().text, "Equipped 4♦");
    app.selected = 0;
    let cues = app.on_key(Key::Char(' '));
    assert_eq!(app.game.health, 10);
    assert_eq!(app.log.last().unwrap().text, "Slew 9♠ with your blade (-5 HP)");
    assert_eq!(app.log.last().unwrap().tone, Tone::Threat(9));
    assert_eq!(cues, vec![Cue::FlashDamage]);
}

#[test]
fn fighting_a_non_monster_flashes_a_hint() {
    let mut app = app_with(rigged(vec![mon(9), pot(5), mon(3), wpn(4)], vec![]));
    app.selected = 1;
    app.on_key(Key::Char('f'));
    assert_eq!(app.flash.as_deref(), Some("Select a monster to fight."));
    assert_eq!(app.game.room.len(), 4);
    app.selected = 0;
    app.on_key(Key::Char('f'));
    assert_eq!(app.flash.as_deref(), Some("You have no weapon equipped."));
    app.on_key(Key::Char('b'));
    assert_eq!(app.flash, None);
    assert_eq!(app.game.health, 11);
    assert_eq!(app.log.last().unwrap().text, "Slew 9♠ bare-handed (-9 HP)");
}

#[test]
fn avoid_twice_is_explained() {
    let deck: Vec<Card> = (2..=10).map(mon).collect();
    let mut app = app_with(rigged(vec![mon(14), mon(13), mon(12), mon(11)], deck));
    app.on_key(Key::Char('a'));
    assert_eq!(app.log.last().unwrap().text, "Avoided the room");
    app.on_key(Key::Char('a'));
    assert_eq!(app.flash.as_deref(), Some("You can't avoid now (already played or just avoided)."));
}

#[test]
fn finished_game_is_recorded_once() {
    let mut g = rigged(vec![mon(14), mon(13), mon(12), mon(11)], vec![]);
    g.health = 5;
    let mut app = app_with(g);
    let cues = app.on_key(Key::Char('b'));
    assert_eq!(app.game.status, Status::Lost);
    assert_eq!(cues, vec![Cue::FlashDamage, Cue::SaveStats]);
    assert_eq!(app.stats.games_played, 1);
    assert_eq!(app.stats.best_score, -9 - 36);
    assert_eq!(app.log.last().unwrap().text, "You fell in the dungeon.");
    // Further keys on the game-over screen do nothing.
    let cues = app.on_key(Key::Char('b'));
    assert!(cues.is_empty());
    assert_eq!(app.stats.games_played, 1);
}

#[test]
fn retry_and_flip_rule_replay_the_seed() {
    let mut app = App::new(42, WeaponRule::Strict, Stats::default());
    let first_room = app.game.room.clone();
    app.on_key(Key::Char('b'));
    let cues = app.on_key(Key::Char('r'));
    assert_eq!(cues, vec![Cue::RevealRoom]);
    assert_eq!(app.game.room, first_room);
    assert_eq!(app.game.seed, 42);
    app.on_key(Key::Char('t'));
    assert_eq!(app.game.rule, WeaponRule::Equal);
    assert_eq!(app.game.room, first_room);
    assert_eq!(app.log.last().unwrap().text, "Dungeon opened — seed 42, equal weapons.");
    app.on_key(Key::Char('n'));
    assert_eq!(app.game.rule, WeaponRule::Equal);
    assert_eq!(app.game.room.len(), 4);
}

#[test]
fn log_keeps_the_last_two_hundred_lines() {
    let mut app = App::new(1, WeaponRule::Strict, Stats::default());
    for _ in 0..250 {
        app.on_key(Key::Char('r'));
    }
    assert_eq!(app.log.len(), 200);
    assert_eq!(app.log[0].text, "Dungeon opened — seed 1, strict weapons.");
}
