//! The battle resolution engine.
//!
//! A pure, deterministic, total function from two creature snapshots to the
//! identifier of the winner. Turn order is fixed once before the fight:
//! higher speed acts first; on equal speed, higher attack acts first; if both
//! are equal, the second creature acts first (a documented, deterministic
//! tie-break). The fight then alternates attacks, each attack dealing
//! `attack - defense` damage but never less than 1, until one side's hit
//! points reach zero or below. A creature whose hit points are already zero
//! or below at the start loses immediately.

use vstd::prelude::*;

use crate::monster::Monster;

verus! {

/// Damage one attack deals: the attacker's attack minus the defender's
/// defense, floored at 1 so that no fight can stall.
pub open spec fn spec_damage(attack: int, defense: int) -> int {
    if attack - defense <= 0 {
        1
    } else {
        attack - defense
    }
}

/// The hit points that still matter for the fight: anything at or below
/// zero counts as zero.
pub open spec fn clip(hp: int) -> nat {
    if hp > 0 {
        hp as nat
    } else {
        0
    }
}

/// Whether creature `a` acts first against creature `b`: higher speed first,
/// then higher attack on a speed tie; a full tie lets `b` act first.
pub open spec fn spec_a_first(a: Monster, b: Monster) -> bool {
    a.speed > b.speed || (a.speed == b.speed && a.attack > b.attack)
}

/// Whether the first actor wins the fight, given both actors' attack,
/// defense and hit points. One step of this recursion is one round: the
/// first actor attacks, and if the second survives, the second attacks back.
/// A first actor whose hit points start at or below zero loses outright;
/// otherwise a second actor in that state loses outright.
pub open spec fn spec_first_wins(fa: int, fd: int, fhp: int, sa: int, sd: int, shp: int) -> bool
    decreases clip(fhp) + clip(shp),
{
    if fhp <= 0 {
        false
    } else if shp <= 0 {
        true
    } else {
        let shp2 = shp - spec_damage(fa, sd);
        if shp2 <= 0 {
            true
        } else {
            let fhp2 = fhp - spec_damage(sa, fd);
            if fhp2 <= 0 {
                false
            } else {
                spec_first_wins(fa, fd, fhp2, sa, sd, shp2)
            }
        }
    }
}

/// How many rounds the fight lasts. A round is one attack by the first
/// actor, followed by one attack by the second actor unless the first
/// attack already ended the fight. Degenerate fights (a side already at or
/// below zero hit points) last zero rounds.
pub open spec fn spec_rounds(fa: int, fd: int, fhp: int, sa: int, sd: int, shp: int) -> nat
    decreases clip(fhp) + clip(shp),
{
    if fhp <= 0 || shp <= 0 {
        0
    } else {
        let shp2 = shp - spec_damage(fa, sd);
        if shp2 <= 0 {
            1
        } else {
            let fhp2 = fhp - spec_damage(sa, fd);
            if fhp2 <= 0 {
                1
            } else {
                1 + spec_rounds(fa, fd, fhp2, sa, sd, shp2)
            }
        }
    }
}

/// How many individual attacks land over the whole fight.
pub open spec fn spec_attacks(fa: int, fd: int, fhp: int, sa: int, sd: int, shp: int) -> nat
    decreases clip(fhp) + clip(shp),
{
    if fhp <= 0 || shp <= 0 {
        0
    } else {
        let shp2 = shp - spec_damage(fa, sd);
        if shp2 <= 0 {
            1
        } else {
            let fhp2 = fhp - spec_damage(sa, fd);
            if fhp2 <= 0 {
                2
            } else {
                2 + spec_attacks(fa, fd, fhp2, sa, sd, shp2)
            }
        }
    }
}

/// Whether creature `a` wins a battle against creature `b`, turn order
/// included.
pub open spec fn spec_a_wins(a: Monster, b: Monster) -> bool {
    if spec_a_first(a, b) {
        spec_first_wins(
            a.attack as int,
            a.defense as int,
            a.hp as int,
            b.attack as int,
            b.defense as int,
            b.hp as int,
        )
    } else {
        !spec_first_wins(
            b.attack as int,
            b.defense as int,
            b.hp as int,
            a.attack as int,
            a.defense as int,
            a.hp as int,
        )
    }
}

/// The identifier the battle between `a` and `b` reports as the winner.
pub open spec fn spec_winner_id(a: Monster, b: Monster) -> Seq<char> {
    if spec_a_wins(a, b) {
        a.id@
    } else {
        b.id@
    }
}

/// Damage dealt by an attacker with stat `attack` to a defender with stat
/// `defense`: their difference, floored at 1. Total over all stat values.
pub fn damage_dealt(attack: i32, defense: i32) -> (d: i64)
    ensures
        d == spec_damage(attack as int, defense as int),
        d >= 1,
{
    let diff: i64 = attack as i64 - defense as i64;
    if diff <= 0 {
        1
    } else {
        diff
    }
}

/// Whether creature `a` acts first against creature `b`.
pub fn a_acts_first(a: &Monster, b: &Monster) -> (r: bool)
    ensures
        r == spec_a_first(*a, *b),
{
    a.speed > b.speed || (a.speed == b.speed && a.attack > b.attack)
}

/// How many rounds the battle between `a` and `b` lasts, turn order
/// included.
pub open spec fn spec_battle_rounds(a: Monster, b: Monster) -> nat {
    if spec_a_first(a, b) {
        spec_rounds(
            a.attack as int,
            a.defense as int,
            a.hp as int,
            b.attack as int,
            b.defense as int,
            b.hp as int,
        )
    } else {
        spec_rounds(
            b.attack as int,
            b.defense as int,
            b.hp as int,
            a.attack as int,
            a.defense as int,
            a.hp as int,
        )
    }
}

/// A fight lasts at most as many rounds as the second actor has hit points:
/// the second actor takes at least 1 damage in every round.
pub proof fn lemma_rounds_le_second_hp(fa: int, fd: int, fhp: int, sa: int, sd: int, shp: int)
    ensures
        spec_rounds(fa, fd, fhp, sa, sd, shp) <= clip(shp),
    decreases clip(fhp) + clip(shp),
{
    if fhp <= 0 || shp <= 0 {
    } else {
        let shp2: int = shp - spec_damage(fa, sd);
        if shp2 <= 0 {
        } else {
            let fhp2: int = fhp - spec_damage(sa, fd);
            if fhp2 <= 0 {
            } else {
                lemma_rounds_le_second_hp(fa, fd, fhp2, sa, sd, shp2);
            }
        }
    }
}

/// Termination bound: the whole fight lands at most `clip(fhp) + clip(shp)`
/// attacks, because every attack removes at least one effective hit point
/// from one of the two sides.
pub proof fn lemma_attacks_bounded(fa: int, fd: int, fhp: int, sa: int, sd: int, shp: int)
    ensures
        spec_attacks(fa, fd, fhp, sa, sd, shp) <= clip(fhp) + clip(shp),
    decreases clip(fhp) + clip(shp),
{
    if fhp <= 0 || shp <= 0 {
    } else {
        let shp2: int = shp - spec_damage(fa, sd);
        if shp2 <= 0 {
        } else {
            let fhp2: int = fhp - spec_damage(sa, fd);
            if fhp2 <= 0 {
            } else {
                lemma_attacks_bounded(fa, fd, fhp2, sa, sd, shp2);
            }
        }
    }
}

/// Termination bound at the battle level: whichever way the turn order
/// falls, the whole battle lands at most `clip(a.hp) + clip(b.hp)`
/// attacks.
pub proof fn lemma_battle_attacks_bounded(a: Monster, b: Monster)
    ensures
        spec_a_first(a, b) ==> spec_attacks(
            a.attack as int,
            a.defense as int,
            a.hp as int,
            b.attack as int,
            b.defense as int,
            b.hp as int,
        ) <= clip(a.hp as int) + clip(b.hp as int),
        !spec_a_first(a, b) ==> spec_attacks(
            b.attack as int,
            b.defense as int,
            b.hp as int,
            a.attack as int,
            a.defense as int,
            a.hp as int,
        ) <= clip(a.hp as int) + clip(b.hp as int),
{
    lemma_attacks_bounded(
        a.attack as int,
        a.defense as int,
        a.hp as int,
        b.attack as int,
        b.defense as int,
        b.hp as int,
    );
    lemma_attacks_bounded(
        b.attack as int,
        b.defense as int,
        b.hp as int,
        a.attack as int,
        a.defense as int,
        a.hp as int,
    );
}

/// Simulate the fight between an ordered pair of actors. Returns whether the
/// first actor wins, and how many rounds the fight lasts. Total over all
/// stat values: hit points are tracked in a wider type, so no stat can
/// overflow, and the minimum damage of 1 forces termination.
pub fn simulate(first: &Monster, second: &Monster) -> (r: (bool, u64))
    ensures
        r.0 == spec_first_wins(
            first.attack as int,
            first.defense as int,
            first.hp as int,
            second.attack as int,
            second.defense as int,
            second.hp as int,
        ),
        r.1 == spec_rounds(
            first.attack as int,
            first.defense as int,
            first.hp as int,
            second.attack as int,
            second.defense as int,
            second.hp as int,
        ),
        r.1 as nat <= clip(second.hp as int),
{
    let mut fhp: i64 = first.hp as i64;
    let mut shp: i64 = second.hp as i64;
    let mut rounds: u64 = 0;
    proof {
        lemma_rounds_le_second_hp(
            first.attack as int,
            first.defense as int,
            first.hp as int,
            second.attack as int,
            second.defense as int,
            second.hp as int,
        );
    }
    while fhp > 0 && shp > 0
        invariant
            -0x1_0000_0000 <= fhp <= 0x7fff_ffff,
            -0x1_0000_0000 <= shp <= 0x7fff_ffff,
            spec_first_wins(
                first.attack as int,
                first.defense as int,
                first.hp as int,
                second.attack as int,
                second.defense as int,
                second.hp as int,
            ) == spec_first_wins(
                first.attack as int,
                first.defense as int,
                fhp as int,
                second.attack as int,
                second.defense as int,
                shp as int,
            ),
            spec_rounds(
                first.attack as int,
                first.defense as int,
                first.hp as int,
                second.attack as int,
                second.defense as int,
                second.hp as int,
            ) == rounds + spec_rounds(
                first.attack as int,
                first.defense as int,
                fhp as int,
                second.attack as int,
                second.defense as int,
                shp as int,
            ),
            spec_rounds(
                first.attack as int,
                first.defense as int,
                first.hp as int,
                second.attack as int,
                second.defense as int,
                second.hp as int,
            ) <= 0x8000_0000,
        decreases clip(fhp as int) + clip(shp as int),
    {
        let d1: i64 = damage_dealt(first.attack, second.defense);
        shp = shp - d1;
        if shp > 0 {
            let d2: i64 = damage_dealt(second.attack, first.defense);
            fhp = fhp - d2;
        }
        rounds = rounds + 1;
    }
    (fhp > 0 && shp <= 0, rounds)
}

/// Resolve a battle between two creature snapshots: fix the turn order,
/// simulate the fight, and return the identifier of the winner. Pure and
/// total: neither input is changed, every pair of snapshots yields a
/// winner, and the winner is a function of the two snapshots alone.
pub fn resolve_battle(a: &Monster, b: &Monster) -> (w: String)
    ensures
        w@ == spec_winner_id(*a, *b),
        w@ == a.id@ || w@ == b.id@,
{
    if a_acts_first(a, b) {
        let r = simulate(a, b);
        if r.0 {
            a.id.clone()
        } else {
            b.id.clone()
        }
    } else {
        let r = simulate(b, a);
        if r.0 {
            b.id.clone()
        } else {
            a.id.clone()
        }
    }
}

/// How many rounds the battle between `a` and `b` lasts, turn order
/// included.
pub fn battle_rounds(a: &Monster, b: &Monster) -> (r: u64)
    ensures
        r == spec_battle_rounds(*a, *b),
{
    if a_acts_first(a, b) {
        let r = simulate(a, b);
        r.1
    } else {
        let r = simulate(b, a);
        r.1
    }
}

/// Determinism: the winner is a function of the snapshots' contents alone.
/// Battles between pairwise identical snapshots name the same winner.
pub proof fn lemma_winner_deterministic(a1: Monster, b1: Monster, a2: Monster, b2: Monster)
    requires
        a1@ == a2@,
        b1@ == b2@,
    ensures
        spec_winner_id(a1, b1) == spec_winner_id(a2, b2),
{
}

/// Speed precedence: the strictly faster creature acts first, whatever the
/// attack stats say.
pub proof fn lemma_speed_precedence(a: Monster, b: Monster)
    ensures
        a.speed > b.speed ==> spec_a_first(a, b),
        b.speed > a.speed ==> !spec_a_first(a, b),
{
}

/// The observable face of speed precedence: a living, faster creature whose
/// first attack already finishes the other one wins outright, whatever the
/// other creature's attack stat.
pub proof fn lemma_faster_one_shot_wins(a: Monster, b: Monster)
    requires
        a.speed > b.speed,
        a.hp > 0,
        spec_damage(a.attack as int, b.defense as int) >= b.hp,
    ensures
        spec_a_wins(a, b),
{
}

/// Tie-break by attack: on equal speed, the creature with strictly higher
/// attack acts first.
pub proof fn lemma_tie_break_by_attack(a: Monster, b: Monster)
    requires
        a.speed == b.speed,
    ensures
        a.attack > b.attack ==> spec_a_first(a, b),
        b.attack > a.attack ==> !spec_a_first(a, b),
{
}

/// The full-tie rule: when speed and attack are both equal, the second
/// creature acts first. This is the deterministic fallback the turn-order
/// policy documents.
pub proof fn lemma_full_tie_second_acts_first(a: Monster, b: Monster)
    requires
        a.speed == b.speed,
        a.attack == b.attack,
    ensures
        !spec_a_first(a, b),
{
}

/// Minimum damage floor: when attack does not exceed defense, an attack
/// still deals exactly 1 damage, never 0 or less.
pub proof fn lemma_damage_floor(attack: int, defense: int)
    requires
        attack - defense <= 0,
    ensures
        spec_damage(attack, defense) == 1,
{
}

/// Every attack deals at least 1 damage, whatever the stats.
pub proof fn lemma_damage_at_least_one(attack: int, defense: int)
    ensures
        spec_damage(attack, defense) >= 1,
{
}

/// Linear decay: when every attack on either side deals the floor damage
/// of 1 and the first actor starts with at least as many hit points as the
/// living second actor, the fight lasts exactly the second actor's hit
/// points in rounds, and the first actor wins.
pub proof fn lemma_floor_damage_linear_decay(
    fa: int,
    fd: int,
    fhp: int,
    sa: int,
    sd: int,
    shp: int,
)
    requires
        spec_damage(fa, sd) == 1,
        spec_damage(sa, fd) == 1,
        0 < shp <= fhp,
    ensures
        spec_first_wins(fa, fd, fhp, sa, sd, shp),
        spec_rounds(fa, fd, fhp, sa, sd, shp) == shp,
    decreases shp,
{
    if shp > 1 {
        lemma_floor_damage_linear_decay(fa, fd, fhp - 1, sa, sd, shp - 1);
    }
}

/// A creature that enters the battle with no hit points left loses to a
/// living opponent at once, whichever of the two acts first.
pub proof fn lemma_dead_creature_loses(a: Monster, b: Monster)
    requires
        a.hp <= 0,
        b.hp > 0,
    ensures
        !spec_a_wins(a, b),
{
}

/// In a fight between two actors with identical stats, the first actor
/// wins: the damage floor guarantees progress, and the second actor's hit
/// points always fall first.
pub proof fn lemma_symmetric_first_actor_wins(attack: int, defense: int, hp: int)
    requires
        hp > 0,
    ensures
        spec_first_wins(attack, defense, hp, attack, defense, hp),
    decreases hp,
{
    let hp2: int = hp - spec_damage(attack, defense);
    if hp2 > 0 {
        lemma_symmetric_first_actor_wins(attack, defense, hp2);
    }
}

/// Two creatures with fully identical stats: the tie-break lets the second
/// one act first, and the first actor of a symmetric fight wins, so the
/// second creature wins.
pub proof fn lemma_symmetric_battle_second_wins(a: Monster, b: Monster)
    requires
        a.attack == b.attack,
        a.defense == b.defense,
        a.hp == b.hp,
        a.speed == b.speed,
        a.hp > 0,
    ensures
        !spec_a_wins(a, b),
        spec_winner_id(a, b) == b.id@,
{
    lemma_symmetric_first_actor_wins(b.attack as int, b.defense as int, b.hp as int);
}

} // verus!
