//! Run statistics and high scores.
//!
//! Persisting them (JSON in the platform data directory) is the
//! application's business; this module folds finished games into the totals.

use vstd::prelude::*;

use crate::game::{GameState, Status};

verus! {

#[derive(Debug, Clone, PartialEq, Eq, Structural)]
pub struct Stats {
    pub games_played: u32,
    pub wins: u32,
    pub best_score: i32,
    pub worst_score: i32,
    pub total_monsters_slain: u64,
    /// Whether `best_score`/`worst_score` have been seeded yet (so a first
    /// loss of e.g. -30 doesn't lose out to the `0` default).
    pub has_record: bool,
}

impl Default for Stats {
    /// No games recorded.
    fn default() -> (s: Self)
        ensures
            s == (Stats {
                games_played: 0,
                wins: 0,
                best_score: 0,
                worst_score: 0,
                total_monsters_slain: 0,
                has_record: false,
            }),
    {
        Stats {
            games_played: 0,
            wins: 0,
            best_score: 0,
            worst_score: 0,
            total_monsters_slain: 0,
            has_record: false,
        }
    }
}

impl Stats {
    /// The totals after a game with final score `score`, status `status` and
    /// `slain` monsters slain is folded in.
    pub open spec fn recorded(self, score: int, status: Status, slain: int) -> Stats {
        Stats {
            games_played: (self.games_played + 1) as u32,
            wins: if status == Status::Won { (self.wins + 1) as u32 } else { self.wins },
            best_score: if !self.has_record || score > self.best_score {
                score as i32
            } else {
                self.best_score
            },
            worst_score: if !self.has_record || score < self.worst_score {
                score as i32
            } else {
                self.worst_score
            },
            total_monsters_slain: (self.total_monsters_slain + slain) as u64,
            has_record: true,
        }
    }

    /// Folding `game` in overflows no counter.
    pub open spec fn can_record(self, game: &GameState) -> bool {
        &&& game@.score_fits()
        &&& self.games_played < u32::MAX
        &&& game.status == Status::Won ==> self.wins < u32::MAX
        &&& self.total_monsters_slain + game.monsters_slain <= u64::MAX
    }

    /// Fold a finished game into the running totals.
    pub fn record(&mut self, game: &GameState)
        requires
            old(self).can_record(game),
        ensures
            *final(self) == old(self).recorded(game@.score(), game.status, game.monsters_slain as int),
            final(self).games_played == old(self).games_played + 1,
            final(self).total_monsters_slain == old(self).total_monsters_slain + game.monsters_slain,
            final(self).wins == old(self).wins + if game.status == Status::Won { 1int } else { 0 },
            final(self).has_record,
    {
        let score = game.score();
        self.games_played = self.games_played + 1;
        if game.status == Status::Won {
            self.wins = self.wins + 1;
        }
        self.total_monsters_slain = self.total_monsters_slain + game.monsters_slain as u64;
        if self.has_record {
            if score > self.best_score {
                self.best_score = score;
            }
            if score < self.worst_score {
                self.worst_score = score;
            }
        } else {
            self.best_score = score;
            self.worst_score = score;
            self.has_record = true;
        }
    }
}


impl Stats {
    /// The totals agree with each other: no more wins than games, the best
    /// score is at least the worst once one is recorded, and nothing is
    /// counted before the first record.
    pub open spec fn consistent(self) -> bool {
        &&& self.wins <= self.games_played
        &&& self.has_record ==> self.worst_score <= self.best_score
        &&& !self.has_record ==> self.games_played == 0 && self.wins == 0
    }
}

/// Fresh statistics are consistent.
pub proof fn lemma_default_consistent(s: Stats)
    requires
        s == (Stats {
            games_played: 0,
            wins: 0,
            best_score: 0,
            worst_score: 0,
            total_monsters_slain: 0,
            has_record: false,
        }),
    ensures
        s.consistent(),
{
}

/// Recording a game keeps the totals consistent, counts one more game (and
/// one more win exactly when it was won), and leaves the best score at
/// least and the worst score at most the new score.
pub proof fn lemma_record_tracks_best_and_worst(s: Stats, score: int, status: Status, slain: int)
    requires
        s.consistent(),
        s.games_played < u32::MAX,
        status == Status::Won ==> s.wins < u32::MAX,
        i32::MIN <= score <= i32::MAX,
        0 <= slain,
        s.total_monsters_slain + slain <= u64::MAX,
    ensures
        s.recorded(score, status, slain).consistent(),
        s.recorded(score, status, slain).games_played == s.games_played + 1,
        s.recorded(score, status, slain).wins == s.wins + if status == Status::Won { 1int } else { 0 },
        s.recorded(score, status, slain).best_score >= score,
        s.recorded(score, status, slain).worst_score <= score,
        s.has_record ==> s.recorded(score, status, slain).best_score >= s.best_score,
        s.has_record ==> s.recorded(score, status, slain).worst_score <= s.worst_score,
{
}

/// The statistics are running totals: recording a game counts one more
/// game, adds the game's slain monsters to the total slain so far, and adds
/// a win exactly when the game was won; so recording two games adds up both.
pub proof fn lemma_record_accumulates(s: Stats, score1: int, status1: Status, slain1: int, score2: int, status2: Status, slain2: int)
    requires
        0 <= slain1,
        0 <= slain2,
        s.total_monsters_slain + slain1 + slain2 <= u64::MAX,
        s.games_played + 2 <= u32::MAX,
        s.wins + 2 <= u32::MAX,
    ensures
        s.recorded(score1, status1, slain1).total_monsters_slain == s.total_monsters_slain + slain1,
        s.recorded(score1, status1, slain1).games_played == s.games_played + 1,
        s.recorded(score1, status1, slain1).wins == s.wins + if status1 == Status::Won { 1int } else { 0 },
        s.recorded(score1, status1, slain1).recorded(score2, status2, slain2).total_monsters_slain
            == s.total_monsters_slain + slain1 + slain2,
        s.recorded(score1, status1, slain1).recorded(score2, status2, slain2).games_played == s.games_played + 2,
{
}

} // verus!
