use blackguard::game::{GameState, Status};
use blackguard::rules::WeaponRule;
use blackguard::stats::Stats;

#[test]
fn record_tracks_best_and_worst() {
    let mut s = Stats::default();
    let mut win = GameState::new(1, WeaponRule::Strict);
    win.status = Status::Won;
    win.health = 12;
    s.record(&win); // score 12
    assert_eq!(s.best_score, 12);
    assert_eq!(s.worst_score, 12);
    assert_eq!(s.wins, 1);

    let mut loss = GameState::new(1, WeaponRule::Strict);
    loss.status = Status::Lost;
    loss.health = -5;
    // no monsters remaining tallied precisely here; just check ordering
    let score = loss.score();
    s.record(&loss);
    assert_eq!(s.best_score, 12);
    assert_eq!(s.worst_score, score.min(12));
    assert_eq!(s.games_played, 2);
}

#[test]
fn first_record_seeds_best_and_worst_even_when_negative() {
    let mut s = Stats::default();
    let mut loss = GameState::new(3, WeaponRule::Strict);
    loss.status = Status::Lost;
    loss.health = -2;
    loss.monsters_slain = 4;
    let score = loss.score();
    assert!(score < 0);
    s.record(&loss);
    assert!(s.has_record);
    assert_eq!(s.best_score, score);
    assert_eq!(s.worst_score, score);
    assert_eq!(s.wins, 0);
    assert_eq!(s.total_monsters_slain, 4);
}
