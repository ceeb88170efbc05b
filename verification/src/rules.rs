//! Configurable rule variants.
//!
//! The 2011 rulebook is self-contradictory about weapon binding: the
//! text says a weapon may afterwards only slay monsters of "a lower value
//! (less than equal)" than the last one it slew. "Lower value" implies
//! strictly less; the parenthetical implies less-than-or-equal. Different
//! implementations pick different readings, so it is a toggle.

use vstd::prelude::*;

verus! {

/// How a bound weapon's reach is compared against a monster's value.
#[derive(Debug, Clone, Copy, PartialEq, Eq, Structural)]
pub enum WeaponRule {
    /// A bound weapon may only be used on monsters strictly weaker than the
    /// last monster it slew (kill an 8, next must be 7 or less). The
    /// community standard and the default.
    Strict,
    /// A bound weapon may be used on monsters of equal or lower value than
    /// the last monster it slew (kill an 8, next may be an 8).
    Equal,
}

impl Default for WeaponRule {
    /// The default rule is the strict reading.
    fn default() -> (r: Self)
        ensures
            r == WeaponRule::Strict,
    {
        WeaponRule::Strict
    }
}

/// The text naming a rule, as shown in the title bar.
pub open spec fn rule_name(rule: WeaponRule) -> Seq<char> {
    match rule {
        WeaponRule::Strict => "strict"@,
        WeaponRule::Equal => "equal"@,
    }
}

impl WeaponRule {
    /// Whether a monster of value `monster` is within reach of a weapon whose
    /// binding ceiling is `bound`.
    pub open spec fn spec_reaches(self, monster: u8, bound: u8) -> bool {
        match self {
            WeaponRule::Strict => monster < bound,
            WeaponRule::Equal => monster <= bound,
        }
    }

    /// Can a weapon whose binding ceiling is `bound` (the value of the last
    /// monster it slew) be used against a monster of value `monster`?
    #[verifier::when_used_as_spec(spec_reaches)]
    pub fn reaches(self, monster: u8, bound: u8) -> (b: bool)
        ensures
            b == self.spec_reaches(monster, bound),
    {
        match self {
            WeaponRule::Strict => monster < bound,
            WeaponRule::Equal => monster <= bound,
        }
    }

    /// The rule's name: "strict" or "equal".
    pub fn as_str(self) -> (s: &'static str)
        ensures
            s@ == rule_name(self),
    {
        match self {
            WeaponRule::Strict => "strict",
            WeaponRule::Equal => "equal",
        }
    }
}

} // verus!
