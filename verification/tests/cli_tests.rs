use blackguard::cli::{daily_seed, daily_seed_at, Cli, Rule};
use blackguard::help::{page, PAGE_COUNT};
use blackguard::rules::WeaponRule;

#[test]
fn explicit_seed_is_used() {
    let cli = Cli { seed: Some(42), daily: false, rule: Rule::Strict };
    assert_eq!(cli.resolve_seed(), 42);
}

#[test]
fn daily_seed_is_the_day_number_in_a_marked_space() {
    assert_eq!(daily_seed_at(0), 0xDA11_0000_0000_0000);
    assert_eq!(daily_seed_at(86_400 * 3 + 5), 0xDA11_0000_0000_0003);
    assert_eq!(daily_seed_at(86_399), 0xDA11_0000_0000_0000);
    assert_eq!(daily_seed() >> 48, 0xDA11);
    let cli = Cli { seed: Some(42), daily: true, rule: Rule::Equal };
    assert_eq!(cli.resolve_seed() >> 48, 0xDA11);
}

#[test]
fn rules_convert() {
    assert_eq!(WeaponRule::from(Rule::Strict), WeaponRule::Strict);
    assert_eq!(WeaponRule::from(Rule::Equal), WeaponRule::Equal);
}

#[test]
fn help_pages_clamp_to_the_last() {
    assert_eq!(PAGE_COUNT, 9);
    assert_eq!(page(0).title, "The Goal");
    assert_eq!(page(0).lines.len(), 9);
    assert_eq!(page(8).title, "Controls");
    assert_eq!(page(1000).title, "Controls");
    assert_eq!(page(2).lines[4], "With a weapon (♦) equipped:");
}
