# Blackguard

A verified rules engine for **Scoundrel**, the single-player roguelike card
game by Zach Gage and Kurt Bieg, with a terminal frontend.

The deck is the dungeon: fight monsters (spades and clubs), wield degrading
weapons (diamonds), drink potions (hearts), and try to survive to the last
card.

## Layout

- `src/` — the library, verified with Verus.
  - `card.rs`, `rules.rs`, `deck.rs`: cards, the weapon-binding rule variants,
    and the 44-card deck.
  - `game.rs`: the game state, its mathematical model `GameView`, the
    transition function `GameView::step`, and `GameState::apply`, proved to
    follow it exactly.
  - `laws.rs`: what every move keeps (the cards, the game invariant) and what
    the rules promise of rooms, weapons, potions and scores.
  - `stats.rs`: folding finished games into the run statistics.
  - `app.rs`: the frontend's state machine: key presses to moves, the message
    log, and the work (animations, saving) left to the frontend.
  - `cli.rs`, `help.rs`, `text.rs`: options and seeds, the rulebook pages, and
    number formatting.
- `app/` — the terminal program: argument parsing, the ratatui view,
  animations, and reading and writing the statistics file.
- `tests/` — tests of the library.
