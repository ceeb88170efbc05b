//! Application state and input handling: the "update" half of the loop.
//!
//! `App` wraps the pure [`GameState`] with the concerns of a frontend (which
//! card is selected, the message log, transient error flashes, the help
//! overlay) and translates key presses into engine [`Action`]s. The work it
//! cannot do itself (animations, saving statistics) it asks for with
//! [`Cue`]s, which the frontend carries out.

use vstd::prelude::*;

use crate::card::{rank_text, Card, Kind, Suit};
use crate::cli::random_u64;
use crate::deck::{standard_deck, DECK_SIZE};
use crate::game::{
    blade_damage, monster_total, weapon_view, Action, GameEvent, GameState, GameView, MoveError, Status, Weapon,
    WeaponView,
};
use crate::help::PAGE_COUNT;
use crate::stats::Stats;
use crate::rules::{rule_name, WeaponRule};
use crate::text::{decimal, decimal_text, push_char};

verus! {

/// The most lines the message log keeps.
pub const LOG_CAP: usize = 200;

/// How a log line is coloured.
#[derive(Debug, Clone, Copy, PartialEq, Eq, Structural)]
pub enum Tone {
    /// Dimmed, italic narration.
    Dim,
    /// Coloured by the threat of a monster of this value.
    Threat(u8),
    Gold,
    Good,
    Bad,
}

/// One line of the message log.
#[derive(Debug, Clone, PartialEq, Eq)]
pub struct Entry {
    pub text: String,
    pub tone: Tone,
}

/// The model of a log line: its text and its tone.
pub open spec fn entry_view(e: Entry) -> (Seq<char>, Tone) {
    (e.text@, e.tone)
}

/// The label of a card: its rank label followed by its suit's glyph.
pub open spec fn label_text(card: Card) -> Seq<char> {
    rank_text(card.rank).push(card.suit.spec_glyph())
}

/// The explanation shown for a refused move.
pub open spec fn explain_text(err: MoveError) -> Seq<char> {
    match err {
        MoveError::WeaponCantReach => "Your weapon is bound — it can't reach a monster that strong."@,
        MoveError::CantAvoid => "You can't avoid now (already played or just avoided)."@,
        MoveError::NoWeapon => "You have no weapon equipped."@,
        MoveError::WrongKind => "You can't do that with this card."@,
        MoveError::OutOfBounds => "No card there."@,
        MoveError::GameOver => "The game is over — press n for a new dungeon."@,
    }
}

/// The banner of a finished game.
pub open spec fn outcome_text(status: Status) -> Option<Seq<char>> {
    match status {
        Status::Won => Some("VICTORY"@),
        Status::Lost => Some("YOU DIED"@),
        Status::Playing => None,
    }
}

/// The log line that narrates an event.
pub open spec fn event_entry(ev: GameEvent) -> (Seq<char>, Tone) {
    match ev {
        GameEvent::Fought { monster, with_weapon, damage } => (
            "Slew "@ + label_text(monster) + " "@ + (if with_weapon {
                "with your blade"@
            } else {
                "bare-handed"@
            }) + " ("@ + (if with_weapon && damage == 0 {
                "no damage"@
            } else {
                "-"@ + decimal_text(damage as nat) + " HP"@
            }) + ")"@,
            Tone::Threat(monster.rank),
        ),
        GameEvent::Equipped { weapon, discarded } => (
            "Equipped "@ + label_text(weapon) + match discarded {
                Some(d) => " (dropped "@ + label_text(d) + ")"@,
                None => Seq::empty(),
            },
            Tone::Gold,
        ),
        GameEvent::Drank { potion, healed, wasted } => if wasted {
            ("Wasted "@ + label_text(potion) + " — already drank this room"@, Tone::Dim)
        } else {
            ("Drank "@ + label_text(potion) + " (+"@ + decimal_text(healed as nat) + " HP)"@, Tone::Good)
        },
        GameEvent::Avoided => ("Avoided the room"@, Tone::Dim),
        GameEvent::RoomRefilled => ("— entered a new room —"@, Tone::Dim),
        GameEvent::Won => ("You cleared the dungeon!"@, Tone::Good),
        GameEvent::Lost => ("You fell in the dungeon."@, Tone::Bad),
    }
}

/// The log line announcing a new dungeon.
pub open spec fn announce_entry(seed: u64, rule: WeaponRule) -> (Seq<char>, Tone) {
    ("Dungeon opened — seed "@ + decimal_text(seed as nat) + ", "@ + rule_name(rule) + " weapons."@, Tone::Dim)
}

/// A card's label: rank label and suit glyph, e.g. "10" and a diamond.
pub fn label(card: Card) -> (s: String)
    ensures
        s@ == label_text(card),
{
    let mut s = card.rank_label().to_owned();
    push_char(&mut s, card.suit.glyph());
    s
}

/// Why a move was refused, in words.
pub fn explain(err: MoveError) -> (s: String)
    ensures
        s@ == explain_text(err),
{
    match err {
        MoveError::WeaponCantReach => "Your weapon is bound — it can't reach a monster that strong.".to_owned(),
        MoveError::CantAvoid => "You can't avoid now (already played or just avoided).".to_owned(),
        MoveError::NoWeapon => "You have no weapon equipped.".to_owned(),
        MoveError::WrongKind => "You can't do that with this card.".to_owned(),
        MoveError::OutOfBounds => "No card there.".to_owned(),
        MoveError::GameOver => "The game is over — press n for a new dungeon.".to_owned(),
    }
}

/// Convenience for the renderer: is the game finished, and how?
pub fn outcome(status: Status) -> (r: Option<&'static str>)
    ensures
        match r {
            Some(s) => outcome_text(status) == Some(s@),
            None => outcome_text(status) is None,
        },
{
    match status {
        Status::Won => Some("VICTORY"),
        Status::Lost => Some("YOU DIED"),
        Status::Playing => None,
    }
}

/// The log line narrating `ev`.
fn event_line(ev: GameEvent) -> (e: Entry)
    ensures
        entry_view(e) == event_entry(ev),
{
    match ev {
        GameEvent::Fought { monster, with_weapon, damage } => {
            let mut t = "Slew ".to_owned();
            t.append(label(monster).as_str());
            t.append(" ");
            t.append(if with_weapon { "with your blade" } else { "bare-handed" });
            t.append(" (");
            if with_weapon && damage == 0 {
                t.append("no damage");
            } else {
                t.append("-");
                t.append(decimal(damage as u64).as_str());
                t.append(" HP");
            }
            t.append(")");
            Entry { text: t, tone: Tone::Threat(monster.value()) }
        },
        GameEvent::Equipped { weapon, discarded } => {
            let mut t = "Equipped ".to_owned();
            t.append(label(weapon).as_str());
            match discarded {
                Some(d) => {
                    t.append(" (dropped ");
                    t.append(label(d).as_str());
                    t.append(")");
                },
                None => {},
            }
            Entry { text: t, tone: Tone::Gold }
        },
        GameEvent::Drank { potion, healed, wasted } => {
            if wasted {
                let mut t = "Wasted ".to_owned();
                t.append(label(potion).as_str());
                t.append(" — already drank this room");
                Entry { text: t, tone: Tone::Dim }
            } else {
                let mut t = "Drank ".to_owned();
                t.append(label(potion).as_str());
                t.append(" (+");
                t.append(decimal(healed as u64).as_str());
                t.append(" HP)");
                Entry { text: t, tone: Tone::Good }
            }
        },
        GameEvent::Avoided => Entry { text: "Avoided the room".to_owned(), tone: Tone::Dim },
        GameEvent::RoomRefilled => Entry { text: "— entered a new room —".to_owned(), tone: Tone::Dim },
        GameEvent::Won => Entry { text: "You cleared the dungeon!".to_owned(), tone: Tone::Good },
        GameEvent::Lost => Entry { text: "You fell in the dungeon.".to_owned(), tone: Tone::Bad },
    }
}

/// The log line announcing a new dungeon with `seed` under `rule`.
fn announce_line(seed: u64, rule: WeaponRule) -> (e: Entry)
    ensures
        entry_view(e) == announce_entry(seed, rule),
{
    let mut t = "Dungeon opened — seed ".to_owned();
    t.append(decimal(seed).as_str());
    t.append(", ");
    t.append(rule.as_str());
    t.append(" weapons.");
    Entry { text: t, tone: Tone::Dim }
}


/// A key press, as the frontend reports it.
#[derive(Debug, Clone, Copy, PartialEq, Eq, Structural)]
pub enum Key {
    Left,
    Right,
    Enter,
    Esc,
    Char(char),
    /// Any key the game does not use.
    Other,
}

/// Work a key press asks of the frontend.
#[derive(Debug, Clone, Copy, PartialEq, Eq, Structural)]
pub enum Cue {
    /// Flash the health readout: damage was taken.
    FlashDamage,
    /// Animate a freshly dealt room.
    RevealRoom,
    /// Persist the statistics: a finished game was just recorded.
    SaveStats,
}

/// The application state around a game.
pub struct App {
    pub game: GameState,
    pub selected: usize,
    pub log: Vec<Entry>,
    pub flash: Option<String>,
    pub show_help: bool,
    pub help_page: usize,
    pub should_quit: bool,
    pub stats: Stats,
    /// Guards against recording the same finished game more than once.
    pub recorded: bool,
}

/// The model of the application state.
#[verifier::ext_equal]
pub struct AppView {
    pub game: GameView,
    pub selected: usize,
    pub log: Seq<(Seq<char>, Tone)>,
    pub flash: Option<Seq<char>>,
    pub show_help: bool,
    pub help_page: usize,
    pub should_quit: bool,
    pub stats: Stats,
    pub recorded: bool,
}

/// The model of an optional message.
pub open spec fn flash_view(f: Option<String>) -> Option<Seq<char>> {
    match f {
        Some(s) => Some(s@),
        None => None,
    }
}

/// The model of a message log.
pub open spec fn log_view(log: Seq<Entry>) -> Seq<(Seq<char>, Tone)> {
    log.map_values(|e: Entry| entry_view(e))
}

impl View for App {
    type V = AppView;

    open spec fn view(&self) -> AppView {
        AppView {
            game: self.game@,
            selected: self.selected,
            log: log_view(self.log@),
            flash: flash_view(self.flash),
            show_help: self.show_help,
            help_page: self.help_page,
            should_quit: self.should_quit,
            stats: self.stats,
            recorded: self.recorded,
        }
    }
}

/// A log keeps only its last `LOG_CAP` lines.
pub open spec fn capped(log: Seq<(Seq<char>, Tone)>) -> Seq<(Seq<char>, Tone)> {
    if log.len() > LOG_CAP {
        log.skip(log.len() - LOG_CAP)
    } else {
        log
    }
}

/// The log after narrating `events` in order.
pub open spec fn logged(log: Seq<(Seq<char>, Tone)>, events: Seq<GameEvent>) -> Seq<(Seq<char>, Tone)>
    decreases events.len(),
{
    if events.len() == 0 {
        log
    } else {
        capped(logged(log, events.drop_last()).push(event_entry(events.last())))
    }
}

/// The animations an event asks for: a damage flash for a fight that cost
/// health, a reveal for a refilled room.
pub open spec fn event_cue(ev: GameEvent) -> Seq<Cue> {
    match ev {
        GameEvent::Fought { damage, .. } => if damage > 0 { seq![Cue::FlashDamage] } else { Seq::empty() },
        GameEvent::RoomRefilled => seq![Cue::RevealRoom],
        _ => Seq::empty(),
    }
}

/// The animations a sequence of events asks for, in order.
pub open spec fn event_cues(events: Seq<GameEvent>) -> Seq<Cue>
    decreases events.len(),
{
    if events.len() == 0 {
        Seq::empty()
    } else {
        event_cues(events.drop_last()) + event_cue(events.last())
    }
}

impl AppView {
    /// The card under the selection, if the selection is in the room.
    pub open spec fn selected_card(self) -> Option<Card> {
        if self.selected < self.game.room.len() {
            Some(self.game.room[self.selected as int])
        } else {
            None
        }
    }

    /// A line appended to the log.
    pub open spec fn pushed(self, e: (Seq<char>, Tone)) -> AppView {
        AppView { log: capped(self.log.push(e)), ..self }
    }

    /// A new game on `deck` with `seed` and `rule`, announced in the log.
    pub open spec fn restarted(self, seed: u64, rule: WeaponRule, deck: Seq<Card>) -> AppView {
        AppView {
            game: GameView::opening(seed, rule, deck),
            selected: 0,
            flash: None,
            recorded: false,
            ..self
        }.pushed(announce_entry(seed, rule))
    }

    /// The selection kept inside the room.
    pub open spec fn clamped(self) -> AppView {
        let n = self.game.room.len();
        if n == 0 {
            AppView { selected: 0, ..self }
        } else if self.selected >= n {
            AppView { selected: (n - 1) as usize, ..self }
        } else {
            self
        }
    }

    /// A finished game not yet recorded is folded into the statistics, which
    /// are then to be saved.
    pub open spec fn with_record(self) -> (AppView, Seq<Cue>) {
        if self.game.is_over() && !self.recorded {
            (
                AppView {
                    stats: self.stats.recorded(self.game.score(), self.game.status, self.game.monsters_slain),
                    recorded: true,
                    ..self
                },
                seq![Cue::SaveStats],
            )
        } else {
            (self, Seq::empty())
        }
    }

    /// Apply a move: on success its events are narrated and animated, the
    /// selection is kept in the room and a finished game is recorded; on
    /// refusal the reason is flashed.
    pub open spec fn acted(self, action: Action) -> (AppView, Seq<Cue>) {
        let r = self.game.step(action);
        match r.1 {
            Ok(events) => {
                let a = AppView { game: r.0, flash: None, log: logged(self.log, events), ..self }.clamped();
                let f = a.with_record();
                (f.0, event_cues(events) + f.1)
            },
            Err(e) => (AppView { flash: Some(explain_text(e)), ..self }, Seq::empty()),
        }
    }

    /// Move the selection by `delta`, wrapping around the room.
    pub open spec fn moved(self, delta: int) -> AppView {
        let n = self.game.room.len();
        if n == 0 {
            self
        } else {
            AppView { selected: ((self.selected + delta) % (n as int)) as usize, ..self }
        }
    }

    /// Use the selected card the natural way: drink a potion, equip a weapon,
    /// fight a monster (with the weapon when it reaches).
    pub open spec fn used_selected(self) -> (AppView, Seq<Cue>) {
        match self.selected_card() {
            None => (self, Seq::empty()),
            Some(c) => {
                let i = self.selected;
                self.acted(
                    match c.suit.spec_kind() {
                        Kind::Potion => Action::Drink(i),
                        Kind::Weapon => Action::Equip(i),
                        Kind::Monster => Action::Fight { index: i, use_weapon: self.game.weapon_reaches(i as int) },
                    },
                )
            },
        }
    }

    /// Fight the selected monster, with the weapon or bare-handed.
    pub open spec fn fought(self, use_weapon: bool) -> (AppView, Seq<Cue>) {
        match self.selected_card() {
            Some(c) if c.spec_is_monster() => self.acted(Action::Fight { index: self.selected, use_weapon }),
            _ => (AppView { flash: Some("Select a monster to fight."@), ..self }, Seq::empty()),
        }
    }

    /// The effect of a key press. A new game's deck is `deck`, and the seed
    /// of a brand-new dungeon is `fresh`.
    pub open spec fn key_step(self, key: Key, fresh: u64, deck: Seq<Card>) -> (AppView, Seq<Cue>) {
        if self.show_help {
            // The help overlay captures navigation while open.
            let s = if key == Key::Char('?') || key == Key::Esc || key == Key::Char('q') {
                AppView { show_help: false, ..self }
            } else if key == Key::Left || key == Key::Char('h') {
                AppView { help_page: if self.help_page == 0 { 0 } else { (self.help_page - 1) as usize }, ..self }
            } else if key == Key::Right || key == Key::Char('l') || key == Key::Char(' ') || key == Key::Enter {
                AppView {
                    help_page: if self.help_page + 1 > PAGE_COUNT - 1 {
                        (PAGE_COUNT - 1) as usize
                    } else {
                        (self.help_page + 1) as usize
                    },
                    ..self
                }
            } else {
                self
            };
            (s, Seq::empty())
        } else if key == Key::Char('q') || key == Key::Esc {
            (AppView { should_quit: true, ..self }, Seq::empty())
        } else if key == Key::Char('?') {
            (AppView { show_help: true, help_page: 0, ..self }, Seq::empty())
        } else if key == Key::Char('n') {
            (self.restarted(fresh, self.game.rule, deck), seq![Cue::RevealRoom])
        } else if key == Key::Char('r') {
            (self.restarted(self.game.seed, self.game.rule, deck), seq![Cue::RevealRoom])
        } else if key == Key::Char('t') {
            // Flip the weapon rule and replay the same seed to compare.
            let rule = match self.game.rule {
                WeaponRule::Strict => WeaponRule::Equal,
                WeaponRule::Equal => WeaponRule::Strict,
            };
            (self.restarted(self.game.seed, rule, deck), seq![Cue::RevealRoom])
        } else if self.game.is_over() {
            // Only n / r / t / q / ? matter on the game-over screen.
            (self, Seq::empty())
        } else if key == Key::Left || key == Key::Char('h') {
            (self.moved(-1), Seq::empty())
        } else if key == Key::Right || key == Key::Char('l') {
            (self.moved(1), Seq::empty())
        } else if key == Key::Enter || key == Key::Char(' ') {
            self.used_selected()
        } else if key == Key::Char('f') {
            self.fought(true)
        } else if key == Key::Char('b') {
            self.fought(false)
        } else if key == Key::Char('a') {
            self.acted(Action::Avoid)
        } else {
            (self, Seq::empty())
        }
    }

    /// No arithmetic of a key press overflows: the game's own limits, a
    /// dungeon and a health small enough for the score to fit an `i32`, room
    /// for one more game in the statistics, and a selection and help page
    /// within range.
    pub open spec fn fits_machine(self) -> bool {
        &&& self.game.fits_machine()
        &&& self.game.health >= -1_000_000_000
        &&& self.game.deck.len() + self.game.room.len() <= 1_000_000
        &&& self.stats.games_played < u32::MAX
        &&& self.stats.wins < u32::MAX
        &&& self.stats.total_monsters_slain + self.game.monsters_slain + 1 <= u64::MAX
        &&& self.selected <= i32::MAX
        &&& self.help_page < usize::MAX
    }
}


impl AppView {
    /// The application opening a dungeon on `deck` with `seed` and `rule`,
    /// keeping `stats`: nothing selected, no message, help closed, and the
    /// announcement in the log.
    pub open spec fn started(seed: u64, rule: WeaponRule, stats: Stats, deck: Seq<Card>) -> AppView {
        AppView {
            game: GameView::opening(seed, rule, deck),
            selected: 0,
            log: Seq::empty(),
            flash: None,
            show_help: false,
            help_page: 0,
            should_quit: false,
            stats,
            recorded: false,
        }.pushed(announce_entry(seed, rule))
    }
}

/// `deck` is the standard deck in some order.
pub open spec fn is_shuffled_deck(deck: Seq<Card>) -> bool {
    deck.to_multiset() == standard_deck().to_multiset() && deck.len() == DECK_SIZE
}

/// A tally of monsters is worth at most 255 a card.
proof fn lemma_monster_total_bound(cards: Seq<Card>)
    ensures
        0 <= monster_total(cards) <= 255 * cards.len(),
    decreases cards.len(),
{
    if cards.len() > 0 {
        lemma_monster_total_bound(cards.drop_last());
    }
}

/// A move can cost at most 255 health (or bring an overfull health down to
/// the maximum), never adds to the dungeon, and slays at most one monster.
proof fn lemma_step_bounds(s: GameView, action: Action)
    ensures
        s.step(action).0.health >= s.health - 255 || s.step(action).0.health == crate::game::MAX_HEALTH,
        s.step(action).0.dungeon_size() <= s.dungeon_size(),
        s.step(action).0.monsters_slain <= s.monsters_slain + 1,
        s.step(action).0.seed == s.seed,
{
    if s.step(action).1 is Ok {
        crate::laws::lemma_moves_shrink_dungeon(s, action);
    }
}

impl App {
    /// The selected card, if the selection is in the room.
    pub fn selected_card(&self) -> (c: Option<Card>)
        ensures
            c == self@.selected_card(),
    {
        if self.selected < self.game.room.len() {
            Some(self.game.room[self.selected])
        } else {
            None
        }
    }

    fn push(&mut self, e: Entry)
        ensures
            final(self)@ == old(self)@.pushed(entry_view(e)),
    {
        let ghost full = log_view(self.log@).push(entry_view(e));
        self.log.push(e);
        assert(log_view(self.log@) =~= full);
        let ghost mut k: int = 0;
        while self.log.len() > LOG_CAP
            invariant
                0 <= k,
                k == 0 || full.len() - k >= LOG_CAP,
                log_view(self.log@) == full.skip(k),
                self@ == (AppView { log: log_view(self.log@), ..old(self)@ }),
            decreases self.log.len(),
        {
            let ghost before = self.log@;
            self.log.remove(0);
            proof {
                assert(log_view(self.log@) =~= log_view(before).skip(1));
                assert(full.skip(k).skip(1) =~= full.skip(k + 1));
                k = k + 1;
            }
        }
        proof {
            if k == 0 {
                assert(full.skip(0) =~= full);
            }
        }
    }

    fn announce(&mut self)
        ensures
            final(self)@ == old(self)@.pushed(announce_entry(old(self).game.seed, old(self).game.rule)),
    {
        let line = announce_line(self.game.seed, self.game.rule);
        self.push(line);
    }

    /// Start a new game on the standard deck shuffled from `seed`.
    fn restart(&mut self, seed: u64, rule: WeaponRule) -> (deck: Ghost<Seq<Card>>)
        ensures
            is_shuffled_deck(deck@),
            final(self)@ == old(self)@.restarted(seed, rule, deck@),
    {
        self.game = GameState::new(seed, rule);
        let ghost d = choose|d: Seq<Card>|
            #![trigger GameView::opening(seed, rule, d)]
            d.to_multiset() == standard_deck().to_multiset() && d.len() == DECK_SIZE
                && self.game@ == GameView::opening(seed, rule, d);
        self.selected = 0;
        self.flash = None;
        self.recorded = false;
        self.announce();
        Ghost(d)
    }

    /// Open a dungeon from `seed` under `rule`, keeping the statistics
    /// `stats` that earlier runs left.
    pub fn new(seed: u64, rule: WeaponRule, stats: Stats) -> (app: App)
        ensures
            exists|deck: Seq<Card>|
                #![trigger AppView::started(seed, rule, stats, deck)]
                is_shuffled_deck(deck) && app@ == AppView::started(seed, rule, stats, deck),
    {
        let game = GameState::new(seed, rule);
        let ghost d = choose|d: Seq<Card>|
            #![trigger GameView::opening(seed, rule, d)]
            d.to_multiset() == standard_deck().to_multiset() && d.len() == DECK_SIZE
                && game@ == GameView::opening(seed, rule, d);
        let mut app = App {
            game,
            selected: 0,
            log: Vec::new(),
            flash: None,
            show_help: false,
            help_page: 0,
            should_quit: false,
            stats,
            recorded: false,
        };
        assert(log_view(app.log@) =~= Seq::empty());
        app.announce();
        assert(app@ == AppView::started(seed, rule, stats, d));
        app
    }

    fn clamp_selection(&mut self)
        ensures
            final(self)@ == old(self)@.clamped(),
    {
        let n = self.game.room.len();
        if n == 0 {
            self.selected = 0;
        } else if self.selected >= n {
            self.selected = n - 1;
        }
    }

    /// Record the result exactly once when a game finishes.
    fn maybe_record(&mut self, cues: &mut Vec<Cue>)
        requires
            old(self).game.status != Status::Playing && !old(self).recorded ==> old(self).stats.can_record(&old(self).game),
        ensures
            final(self)@ == old(self)@.with_record().0,
            final(cues)@ == old(cues)@ + old(self)@.with_record().1,
    {
        if self.game.is_over() && !self.recorded {
            self.stats.record(&self.game);
            cues.push(Cue::SaveStats);
            self.recorded = true;
        }
    }

    fn log_event(&mut self, ev: GameEvent)
        ensures
            final(self)@ == old(self)@.pushed(event_entry(ev)),
    {
        let line = event_line(ev);
        self.push(line);
    }

    /// Apply a move and narrate what happened.
    fn act(&mut self, action: Action) -> (cues: Vec<Cue>)
        requires
            old(self)@.fits_machine(),
        ensures
            (final(self)@, cues@) == old(self)@.acted(action),
    {
        let ghost pre = self@;
        proof {
            lemma_step_bounds(pre.game, action);
        }
        match self.game.apply(action) {
            Ok(events) => {
                self.flash = None;
                let ghost mid = self@;
                let mut cues: Vec<Cue> = Vec::new();
                let mut i: usize = 0;
                while i < events.len()
                    invariant
                        0 <= i <= events@.len(),
                        self@ == (AppView { log: logged(pre.log, events@.take(i as int)), ..mid }),
                        cues@ == event_cues(events@.take(i as int)),
                    decreases events.len() - i,
                {
                    let ev = events[i];
                    proof {
                        assert(events@.take(i + 1).drop_last() =~= events@.take(i as int));
                    }
                    self.log_event(ev);
                    match ev {
                        GameEvent::Fought { damage, .. } => {
                            if damage > 0 {
                                cues.push(Cue::FlashDamage);
                            }
                        },
                        GameEvent::RoomRefilled => {
                            cues.push(Cue::RevealRoom);
                        },
                        _ => {},
                    }
                    proof {
                        assert(cues@ =~= event_cues(events@.take(i + 1)));
                    }
                    i = i + 1;
                }
                proof {
                    assert(events@.take(events@.len() as int) =~= events@);
                    let g = self.game@;
                    lemma_monster_total_bound(g.deck);
                    lemma_monster_total_bound(g.room);
                }
                self.clamp_selection();
                self.maybe_record(&mut cues);
                cues
            },
            Err(err) => {
                self.flash = Some(explain(err));
                Vec::new()
            },
        }
    }

    /// Move the selection one card left (`delta` -1) or right (`delta` 1),
    /// wrapping around the room.
    fn move_selection(&mut self, delta: i32)
        requires
            delta == 1 || delta == -1,
            old(self).game.room@.len() <= 1_000_000,
        ensures
            final(self)@ == old(self)@.moved(delta as int),
    {
        let n = self.game.room.len();
        if n == 0 {
            return;
        }
        let cur = self.selected;
        proof {
            vstd::arithmetic::div_mod::lemma_mod_bound(cur as int, n as int);
            vstd::arithmetic::div_mod::lemma_add_mod_noop_right(1, cur as int, n as int);
            vstd::arithmetic::div_mod::lemma_add_mod_noop_right(n - 1, cur as int, n as int);
            vstd::arithmetic::div_mod::lemma_mod_add_multiples_vanish(cur - 1, n as int);
        }
        if delta > 0 {
            self.selected = (cur % n + 1) % n;
        } else {
            self.selected = (cur % n + n - 1) % n;
        }
    }

    /// Use the selected card the natural way: drink, equip or fight.
    fn use_selected(&mut self) -> (cues: Vec<Cue>)
        requires
            old(self)@.fits_machine(),
        ensures
            (final(self)@, cues@) == old(self)@.used_selected(),
    {
        let card = match self.selected_card() {
            Some(c) => c,
            None => {
                return Vec::new();
            },
        };
        let i = self.selected;
        let action = match card.kind() {
            Kind::Potion => Action::Drink(i),
            Kind::Weapon => Action::Equip(i),
            Kind::Monster => Action::Fight { index: i, use_weapon: self.game.weapon_reaches(i) },
        };
        self.act(action)
    }

    /// Fight the selected monster, with the blade or bare-handed.
    fn fight(&mut self, use_weapon: bool) -> (cues: Vec<Cue>)
        requires
            old(self)@.fits_machine(),
        ensures
            (final(self)@, cues@) == old(self)@.fought(use_weapon),
    {
        match self.selected_card() {
            Some(c) => {
                if c.is_monster() {
                    return self.act(Action::Fight { index: self.selected, use_weapon });
                }
            },
            None => {},
        }
        self.flash = Some("Select a monster to fight.".to_owned());
        Vec::new()
    }
}


impl App {
    /// Handle a key press. The help overlay, when open, takes the navigation
    /// keys; otherwise `q`/Esc quit, `?` opens help, `n` starts a random
    /// dungeon, `r` retries the seed, `t` flips the weapon rule and replays
    /// the seed, and while the game is on the arrows move the selection,
    /// Enter/Space use the selected card, `f`/`b` fight it with the blade or
    /// bare-handed, and `a` avoids the room. Returns the work left to the
    /// frontend. A new game's deck is the standard deck in some order; a
    /// brand-new dungeon's seed is random.
    pub fn on_key(&mut self, key: Key) -> (cues: Vec<Cue>)
        requires
            old(self)@.fits_machine(),
        ensures
            exists|fresh: u64, deck: Seq<Card>|
                #![trigger old(self)@.key_step(key, fresh, deck)]
                is_shuffled_deck(deck) && (final(self)@, cues@) == old(self)@.key_step(key, fresh, deck),
    {
        let ghost pre = self@;
        let ghost mut fresh: u64 = 0;
        let ghost mut deck: Seq<Card> = standard_deck();
        proof {
            standard_deck().to_multiset_ensures();
        }
        let cues: Vec<Cue> = if self.show_help {
            // The help overlay captures navigation while open.
            match key {
                Key::Char('?') | Key::Esc | Key::Char('q') => {
                    self.show_help = false;
                },
                Key::Left | Key::Char('h') => {
                    self.help_page = self.help_page.saturating_sub(1);
                },
                Key::Right | Key::Char('l') | Key::Char(' ') | Key::Enter => {
                    let next = self.help_page + 1;
                    self.help_page = if next > PAGE_COUNT - 1 { PAGE_COUNT - 1 } else { next };
                },
                _ => {},
            }
            Vec::new()
        } else {
            match key {
                Key::Char('q') | Key::Esc => {
                    self.should_quit = true;
                    Vec::new()
                },
                Key::Char('?') => {
                    self.show_help = true;
                    self.help_page = 0;
                    Vec::new()
                },
                Key::Char('n') => {
                    let seed = random_u64();
                    let d = self.restart(seed, self.game.rule);
                    proof {
                        fresh = seed;
                        deck = d@;
                    }
                    let mut cues = Vec::new();
                    cues.push(Cue::RevealRoom);
                    cues
                },
                Key::Char('r') => {
                    let d = self.restart(self.game.seed, self.game.rule);
                    proof {
                        deck = d@;
                    }
                    let mut cues = Vec::new();
                    cues.push(Cue::RevealRoom);
                    cues
                },
                Key::Char('t') => {
                    // Flip the weapon rule and replay the same deck to compare.
                    let rule = match self.game.rule {
                        WeaponRule::Strict => WeaponRule::Equal,
                        WeaponRule::Equal => WeaponRule::Strict,
                    };
                    let d = self.restart(self.game.seed, rule);
                    proof {
                        deck = d@;
                    }
                    let mut cues = Vec::new();
                    cues.push(Cue::RevealRoom);
                    cues
                },
                _ => {
                    if self.game.is_over() {
                        // Only n / r / t / q / ? matter on the game-over screen.
                        Vec::new()
                    } else {
                        match key {
                            Key::Left | Key::Char('h') => {
                                self.move_selection(-1);
                                Vec::new()
                            },
                            Key::Right | Key::Char('l') => {
                                self.move_selection(1);
                                Vec::new()
                            },
                            Key::Enter | Key::Char(' ') => self.use_selected(),
                            Key::Char('f') => self.fight(true),
                            Key::Char('b') => self.fight(false),
                            Key::Char('a') => self.act(Action::Avoid),
                            _ => Vec::new(),
                        }
                    }
                },
            }
        };
        assert((self@, cues@) == pre.key_step(key, fresh, deck));
        cues
    }
}


impl App {
    /// Whether a key press can be handled without overflowing a counter (see
    /// [`AppView::fits_machine`]).
    pub fn fits_machine(&self) -> (b: bool)
        ensures
            b == self@.fits_machine(),
    {
        let g = &self.game;
        g.health >= i32::MIN + 255 && g.health <= i32::MAX - 255 && g.turns < u32::MAX
            && g.monsters_slain < u32::MAX && g.rooms_cleared < u32::MAX && g.resolved_this_cycle < u8::MAX
            && g.health >= -1_000_000_000 && g.deck.len() <= 1_000_000 && g.room.len() <= 1_000_000 - g.deck.len()
            && self.stats.games_played < u32::MAX && self.stats.wins < u32::MAX
            && self.stats.total_monsters_slain < u64::MAX - g.monsters_slain as u64
            && self.selected <= i32::MAX as usize && self.help_page < usize::MAX
    }
}

/// What playing a room card would do, as the caption beneath it tells.
#[derive(Debug, Clone, Copy, PartialEq, Eq, Structural)]
pub enum Hint {
    /// A monster the weapon reaches: the damage with the blade and bare-handed.
    Blade { blade: u8, bare: u8 },
    /// A monster to fight bare-handed, and its damage.
    Bare(u8),
    /// A weapon of this value.
    Arm(u8),
    /// A potion that would heal this much.
    Heal(u8),
    /// A potion that would be wasted.
    NoEffect,
}

/// The hint for `card` given the equipped weapon, the rule, and whether a
/// potion was already drunk this room.
pub open spec fn hint_for(card: Card, weapon: Option<WeaponView>, rule: WeaponRule, potion_used: bool) -> Hint {
    match card.suit.spec_kind() {
        Kind::Monster => match weapon {
            Some(w) if w.can_reach(card.rank, rule) => Hint::Blade {
                blade: blade_damage(card.rank, w.card.rank),
                bare: card.rank,
            },
            _ => Hint::Bare(card.rank),
        },
        Kind::Weapon => Hint::Arm(card.rank),
        Kind::Potion => if potion_used { Hint::NoEffect } else { Hint::Heal(card.rank) },
    }
}

/// The little annotation printed beneath a room card.
pub fn card_hint(card: Card, weapon: &Option<Weapon>, rule: WeaponRule, potion_used: bool) -> (h: Hint)
    ensures
        h == hint_for(card, weapon_view(*weapon), rule, potion_used),
        card.suit == Suit::Hearts ==> (if potion_used { h == Hint::NoEffect } else { h == Hint::Heal(card.rank) }),
        card.suit == Suit::Diamonds ==> h == Hint::Arm(card.rank),
{
    match card.kind() {
        Kind::Monster => {
            let val = card.value();
            match weapon {
                Some(w) => {
                    if w.can_reach(val, rule) {
                        Hint::Blade { blade: val.saturating_sub(w.card.value()), bare: val }
                    } else {
                        Hint::Bare(val)
                    }
                },
                None => Hint::Bare(val),
            }
        },
        Kind::Weapon => Hint::Arm(card.value()),
        Kind::Potion => if potion_used { Hint::NoEffect } else { Hint::Heal(card.value()) },
    }
}

/// Which monsters an equipped weapon may still fight.
#[derive(Debug, Clone, Copy, PartialEq, Eq, Structural)]
pub enum Reach {
    /// A fresh weapon hits anything.
    Anything,
    /// Only monsters weaker than this value (strict rule).
    Below(u8),
    /// Only monsters of at most this value (equal rule).
    AtMost(u8),
}

/// The reach of a weapon under `rule`: what its binding ceiling allows.
pub open spec fn reach_of(w: WeaponView, rule: WeaponRule) -> Reach {
    match w.bound() {
        None => Reach::Anything,
        Some(b) => match rule {
            WeaponRule::Strict => Reach::Below(b),
            WeaponRule::Equal => Reach::AtMost(b),
        },
    }
}

/// Describe which monsters `weapon` may still fight under `rule`.
pub fn weapon_reach(weapon: &Weapon, rule: WeaponRule) -> (r: Reach)
    ensures
        r == reach_of(weapon@, rule),
        forall|m: u8|
            #![trigger weapon@.can_reach(m, rule)]
            weapon@.can_reach(m, rule) <==> match r {
                Reach::Anything => true,
                Reach::Below(b) => m < b,
                Reach::AtMost(b) => m <= b,
            },
{
    match weapon.bound() {
        None => Reach::Anything,
        Some(b) => match rule {
            WeaponRule::Strict => Reach::Below(b),
            WeaponRule::Equal => Reach::AtMost(b),
        },
    }
}


/// A finished game is recorded exactly once: a move that ends the game
/// counts it in the statistics and asks for them to be saved, and once it
/// is recorded no key changes the statistics again.
pub proof fn lemma_finished_game_recorded_once(a: AppView, key: Key, fresh: u64, deck: Seq<Card>)
    ensures
        a.game.is_over() && a.recorded ==> a.key_step(key, fresh, deck).0.stats == a.stats,
        a.game.is_over() && a.recorded ==> !a.key_step(key, fresh, deck).1.contains(Cue::SaveStats),
{
    if a.game.is_over() && a.recorded {
        assert(!a.key_step(key, fresh, deck).1.contains(Cue::SaveStats)) by {
            let cues = a.key_step(key, fresh, deck).1;
            if cues.len() > 0 {
                assert(cues =~= seq![Cue::RevealRoom]);
                assert(cues[0] == Cue::RevealRoom);
            }
        }
    }
}

/// A move that ends a game still unrecorded counts it once in the
/// statistics and asks for them to be saved.
pub proof fn lemma_game_end_is_recorded(a: AppView, action: Action)
    requires
        !a.game.is_over(),
        !a.recorded,
        a.game.step(action).0.is_over(),
    ensures
        a.acted(action).0.recorded,
        a.acted(action).0.stats == a.stats.recorded(
            a.game.step(action).0.score(),
            a.game.step(action).0.status,
            a.game.step(action).0.monsters_slain,
        ),
        a.acted(action).1.last() == Cue::SaveStats,
{
}


impl AppView {
    /// The state every session stays in: its game within budget, the
    /// selection and the help page in range.
    pub open spec fn steady(self) -> bool {
        &&& self.game.within_budget()
        &&& self.selected <= crate::game::ROOM_SIZE
        &&& self.help_page < PAGE_COUNT
    }

    /// The statistics can take one more game of this session.
    pub open spec fn stats_headroom(self) -> bool {
        &&& self.stats.games_played < u32::MAX
        &&& self.stats.wins < u32::MAX
        &&& self.stats.total_monsters_slain + self.game.monsters_slain + 1 <= u64::MAX
    }
}

proof fn lemma_acted_steady(a: AppView, action: Action)
    requires
        a.steady(),
    ensures
        a.acted(action).0.steady(),
{
    crate::laws::lemma_step_keeps_budget(a.game, action);
}

proof fn lemma_restarted_steady(a: AppView, seed: u64, rule: WeaponRule, deck: Seq<Card>)
    requires
        a.steady(),
        is_shuffled_deck(deck),
    ensures
        a.restarted(seed, rule, deck).steady(),
{
    crate::laws::lemma_opening_within_budget(seed, rule, deck);
}

proof fn lemma_moved_steady(a: AppView, delta: int)
    requires
        a.steady(),
    ensures
        a.moved(delta).steady(),
{
    let n = a.game.room.len();
    if n > 0 {
        vstd::arithmetic::div_mod::lemma_mod_bound(a.selected + delta, n as int);
    }
}

/// A steady session overflows nothing on a key press as long as the
/// statistics have room for one more game; sessions start steady, and every
/// key press keeps them steady. So the only limit a session can reach is
/// the size of its statistics counters.
pub proof fn lemma_steady_session(a: AppView, key: Key, fresh: u64, deck: Seq<Card>)
    requires
        a.steady(),
        is_shuffled_deck(deck),
    ensures
        a.stats_headroom() ==> a.fits_machine(),
        a.key_step(key, fresh, deck).0.steady(),
{
    crate::laws::lemma_budget_fits_machine(a.game);
    if a.show_help {
    } else if key == Key::Char('q') || key == Key::Esc || key == Key::Char('?') {
    } else if key == Key::Char('n') {
        lemma_restarted_steady(a, fresh, a.game.rule, deck);
    } else if key == Key::Char('r') {
        lemma_restarted_steady(a, a.game.seed, a.game.rule, deck);
    } else if key == Key::Char('t') {
        lemma_restarted_steady(a, a.game.seed, WeaponRule::Equal, deck);
        lemma_restarted_steady(a, a.game.seed, WeaponRule::Strict, deck);
    } else if a.game.is_over() {
    } else if key == Key::Left || key == Key::Char('h') {
        lemma_moved_steady(a, -1);
    } else if key == Key::Right || key == Key::Char('l') {
        lemma_moved_steady(a, 1);
    } else if key == Key::Enter || key == Key::Char(' ') {
        if let Some(c) = a.selected_card() {
            let i = a.selected;
            lemma_acted_steady(a, Action::Drink(i));
            lemma_acted_steady(a, Action::Equip(i));
            lemma_acted_steady(a, Action::Fight { index: i, use_weapon: a.game.weapon_reaches(i as int) });
        }
    } else if key == Key::Char('f') {
        lemma_acted_steady(a, Action::Fight { index: a.selected, use_weapon: true });
    } else if key == Key::Char('b') {
        lemma_acted_steady(a, Action::Fight { index: a.selected, use_weapon: false });
    } else if key == Key::Char('a') {
        lemma_acted_steady(a, Action::Avoid);
    }
}

/// A new session is steady.
pub proof fn lemma_started_steady(seed: u64, rule: WeaponRule, stats: Stats, deck: Seq<Card>)
    requires
        is_shuffled_deck(deck),
    ensures
        AppView::started(seed, rule, stats, deck).steady(),
{
    crate::laws::lemma_opening_within_budget(seed, rule, deck);
}

/// The caption under a room card tells the truth about playing it: a potion
/// shows a heal exactly when drinking it would not be wasted (and then the
/// heal is its value), and "no effect" exactly when it would be; a monster
/// shows blade damage exactly when fighting it with the weapon is allowed,
/// and then the blade and bare-handed damages are those the two fights deal;
/// a weapon shows its value.
pub proof fn lemma_hint_tells_the_move(s: GameView, index: usize)
    requires
        s.status == Status::Playing,
        index < s.room.len(),
    ensures
        ({
            let c = s.room[index as int];
            let h = hint_for(c, s.weapon, s.rule, s.potion_used);
            let drink = s.step(Action::Drink(index));
            let blade = s.step(Action::Fight { index, use_weapon: true });
            let bare = s.step(Action::Fight { index, use_weapon: false });
            &&& c.suit == Suit::Hearts ==> {
                &&& drink.1 is Ok
                &&& (h is Heal <==> !drink.1->Ok_0[0]->wasted)
                &&& (h is NoEffect <==> drink.1->Ok_0[0]->wasted)
                &&& h is Heal ==> h->Heal_0 == c.rank
            }
            &&& (c.suit == Suit::Spades || c.suit == Suit::Clubs) ==> {
                &&& bare.1 is Ok
                &&& (h is Blade <==> blade.1 is Ok)
                &&& (h is Bare <==> blade.1 is Err)
                &&& h is Blade ==> h->blade == blade.1->Ok_0[0]->damage && h->bare == bare.1->Ok_0[0]->damage
                &&& h is Bare ==> h->Bare_0 == bare.1->Ok_0[0]->damage
            }
            &&& c.suit == Suit::Diamonds ==> h == Hint::Arm(c.rank)
        }),
{
}

/// Using the selected card never fails while the game is on: a potion is
/// drunk, a weapon equipped, and a monster fought, with the weapon exactly
/// when the equipped weapon can reach it and bare-handed otherwise, so no
/// refusal (bound weapon, missing weapon) is ever flashed.
pub proof fn lemma_use_selected_never_refused(a: AppView)
    requires
        a.game.status == Status::Playing,
        a.selected < a.game.room.len(),
    ensures
        a.used_selected().0.flash is None,
        ({
            let c = a.game.room[a.selected as int];
            let reach = a.game.weapon is Some && a.game.weapon->0.can_reach(c.rank, a.game.rule);
            (c.suit == Suit::Spades || c.suit == Suit::Clubs) ==> {
                &&& a.game.step(Action::Fight { index: a.selected, use_weapon: reach }).1 is Ok
                &&& a.used_selected().0.game == a.game.step(Action::Fight { index: a.selected, use_weapon: reach }).0
            }
        }),
        a.used_selected().0.game.dungeon_size() == a.game.dungeon_size() - 1,
{
    let c = a.game.room[a.selected as int];
    let i = a.selected;
    let action = match c.suit.spec_kind() {
        Kind::Potion => Action::Drink(i),
        Kind::Weapon => Action::Equip(i),
        Kind::Monster => Action::Fight { index: i, use_weapon: a.game.weapon_reaches(i as int) },
    };
    assert(a.game.step(action).1 is Ok);
    crate::laws::lemma_moves_shrink_dungeon(a.game, action);
}

} // verus!
