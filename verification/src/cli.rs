//! Command-line options, as plain values: the argument parser itself lives
//! with the application, which converts its parsed options into [`Cli`].

use vstd::prelude::*;

use crate::rules::WeaponRule;

verus! {

/// The options of a run.
#[derive(Debug, Clone, Copy, PartialEq, Eq, Structural)]
pub struct Cli {
    /// Seed for a reproducible dungeon (default: random each run).
    pub seed: Option<u64>,
    /// Play today's daily challenge (same deck for everyone, all day).
    pub daily: bool,
    /// Weapon-binding rule variant.
    pub rule: Rule,
}

/// The weapon-binding rule as chosen on the command line.
#[derive(Debug, Clone, Copy, PartialEq, Eq, Structural)]
pub enum Rule {
    /// A bound weapon may only slay monsters strictly weaker than its last kill.
    Strict,
    /// A bound weapon may slay monsters of equal-or-lower value.
    Equal,
}

/// The engine rule a command-line rule stands for.
pub open spec fn rule_of(r: Rule) -> WeaponRule {
    match r {
        Rule::Strict => WeaponRule::Strict,
        Rule::Equal => WeaponRule::Equal,
    }
}

impl From<Rule> for WeaponRule {
    fn from(r: Rule) -> (w: WeaponRule)
        ensures
            w == rule_of(r),
    {
        match r {
            Rule::Strict => WeaponRule::Strict,
            Rule::Equal => WeaponRule::Equal,
        }
    }
}

impl vstd::std_specs::convert::FromSpecImpl<Rule> for WeaponRule {
    open spec fn obeys_from_spec() -> bool {
        true
    }

    open spec fn from_spec(v: Rule) -> WeaponRule {
        rule_of(v)
    }
}

/// Seconds in a day.
pub const SECS_PER_DAY: u64 = 86_400;

/// The daily seed for the UTC day containing `secs` (seconds since the Unix
/// epoch): the day number, offset into a distinctive part of the seed space.
pub open spec fn daily_seed_value(secs: u64) -> u64 {
    0xDA11_0000_0000_0000u64 ^ (secs / SECS_PER_DAY)
}

/// The seed of the daily challenge for the UTC day containing `secs`.
pub fn daily_seed_at(secs: u64) -> (seed: u64)
    ensures
        seed == daily_seed_value(secs),
{
    0xDA11_0000_0000_0000u64 ^ (secs / SECS_PER_DAY)
}

#[verifier::external_type_specification]
#[verifier::external_body]
pub struct ExSystemTime(std::time::SystemTime);

#[verifier::external_type_specification]
#[verifier::external_body]
pub struct ExSystemTimeError(std::time::SystemTimeError);

/// Calls `std::time::SystemTime::now`: the current time of the system
/// clock. Nothing is stated: the value is the time.
#[verifier::external_body]
fn system_now() -> std::time::SystemTime {
    std::time::SystemTime::now()
}

/// Calls `SystemTime::duration_since(UNIX_EPOCH)`: the time elapsed since
/// the Unix epoch, or an error when `t` lies before it. Nothing is stated of
/// the duration, which is opaque here.
#[verifier::external_body]
fn since_epoch(t: std::time::SystemTime) -> Result<std::time::Duration, std::time::SystemTimeError> {
    t.duration_since(std::time::UNIX_EPOCH)
}

/// Calls `Duration::as_secs`: the whole seconds of `d`. Nothing is stated,
/// since the duration is opaque here.
#[verifier::external_body]
fn whole_secs(d: std::time::Duration) -> u64 {
    d.as_secs()
}

/// Calls `rand::random::<u64>()`: a value from the thread-local generator.
/// Nothing is stated of it.
#[verifier::external_body]
pub(crate) fn random_u64() -> u64 {
    rand::random::<u64>()
}

/// A seed that is stable for the whole current UTC day.
pub fn daily_seed() -> (seed: u64)
    ensures
        exists|secs: u64| seed == daily_seed_value(secs),
{
    let secs = match since_epoch(system_now()) {
        Ok(d) => whole_secs(d),
        Err(_) => 0,
    };
    daily_seed_at(secs)
}

impl Cli {
    /// Resolve the starting seed: daily challenge, else the explicit seed,
    /// else a random one.
    pub fn resolve_seed(&self) -> (seed: u64)
        ensures
            self.daily ==> exists|secs: u64| seed == daily_seed_value(secs),
            !self.daily && self.seed is Some ==> seed == self.seed->0,
    {
        if self.daily {
            daily_seed()
        } else {
            match self.seed {
                Some(s) => s,
                None => random_u64(),
            }
        }
    }
}

} // verus!
