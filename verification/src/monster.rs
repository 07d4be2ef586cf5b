//! The creature data model: combat stats and the field-level validation
//! applied when a creature is created or imported.

use vstd::prelude::*;

verus! {

/// A creature that can take part in a battle.
///
/// The engine reads a `Monster` as an immutable point-in-time snapshot:
/// battles never write back to it. Stats are plain signed integers; only
/// `attack` is range-checked at the data-entry boundary (see
/// [`Monster::validate`]), the engine itself is total over all stat values.
#[derive(Clone, Debug, PartialEq)]
pub struct Monster {
    /// Unique identifier, the string form of a UUID.
    pub id: String,
    /// Descriptive name; not validated here.
    pub name: String,
    /// Descriptive image reference; not validated here.
    pub image_url: String,
    /// Attack stat; constrained to [0, 100] by [`Monster::validate`].
    pub attack: i32,
    /// Defense stat; unconstrained.
    pub defense: i32,
    /// Hit points; unconstrained (a stored creature may even hold `hp <= 0`).
    pub hp: i32,
    /// Speed stat; decides who acts first.
    pub speed: i32,
}

/// The spec-level image of a [`Monster`]: every field as its mathematical
/// value.
#[verifier::ext_equal]
pub struct MonsterView {
    /// Identifier characters.
    pub id: Seq<char>,
    /// Name characters.
    pub name: Seq<char>,
    /// Image reference characters.
    pub image_url: Seq<char>,
    /// Attack stat.
    pub attack: int,
    /// Defense stat.
    pub defense: int,
    /// Hit points.
    pub hp: int,
    /// Speed stat.
    pub speed: int,
}

impl View for Monster {
    type V = MonsterView;

    open spec fn view(&self) -> MonsterView {
        MonsterView {
            id: self.id@,
            name: self.name@,
            image_url: self.image_url@,
            attack: self.attack as int,
            defense: self.defense as int,
            hp: self.hp as int,
            speed: self.speed as int,
        }
    }
}

/// The range the data-entry boundary accepts for the `attack` stat.
pub open spec fn attack_in_range(attack: int) -> bool {
    0 <= attack <= 100
}

impl Monster {
    /// Field-level validation applied when a creature is created:
    /// the attack stat must lie in [0, 100]. No other field is checked.
    pub fn validate(&self) -> (r: bool)
        ensures
            r == attack_in_range(self.attack as int),
    {
        0 <= self.attack && self.attack <= 100
    }
}

} // verus!
