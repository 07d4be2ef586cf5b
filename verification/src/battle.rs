//! Battle records and the battle-creation flow: identifier validation
//! before any store access, and the assembly of the record that the caller
//! persists.

use vstd::prelude::*;

use crate::engine::{resolve_battle, spec_winner_id};
use crate::ids::{fresh_uuid_string, is_wellformed_uuid, uuid_wellformed};
use crate::monster::Monster;

verus! {

/// A recorded battle outcome: the two participants and the winner, all by
/// identifier. The record is created exactly once, by a successful
/// resolution, and never updated afterwards.
#[derive(Clone, Debug, PartialEq)]
pub struct Battle {
    /// Store-managed identifier of the record itself, never client-supplied.
    pub id: String,
    /// Identifier of the first creature of the request.
    pub monster_a: String,
    /// Identifier of the second creature of the request.
    pub monster_b: String,
    /// Identifier of the creature that won.
    pub winner: String,
}

/// Why a battle-creation request was rejected before the engine ran.
#[derive(Clone, Copy, Debug, PartialEq, Eq, Structural)]
pub enum BattleError {
    /// The first identifier is malformed, or names no stored creature.
    MonsterANotFound,
    /// The second identifier is malformed, or names no stored creature.
    MonsterBNotFound,
}

/// The format validation the battle-creation flow applies before any store
/// lookup: both identifiers must be well-formed. The first identifier is
/// checked first, so a request with two malformed identifiers reports the
/// first one.
pub fn check_battle_ids(monster_a: &str, monster_b: &str) -> (r: Result<(), BattleError>)
    ensures
        r is Ok <==> uuid_wellformed(monster_a@) && uuid_wellformed(monster_b@),
        r == Err::<(), BattleError>(BattleError::MonsterANotFound) <==> !uuid_wellformed(
            monster_a@,
        ),
        r == Err::<(), BattleError>(BattleError::MonsterBNotFound) <==> uuid_wellformed(monster_a@)
            && !uuid_wellformed(monster_b@),
{
    if !is_wellformed_uuid(monster_a) {
        Err(BattleError::MonsterANotFound)
    } else if !is_wellformed_uuid(monster_b) {
        Err(BattleError::MonsterBNotFound)
    } else {
        Ok(())
    }
}

/// The existence check the battle-creation flow applies to the two store
/// lookups: both creatures must exist. A missing first creature is
/// reported before a missing second one.
pub fn require_both_monsters(monster_a: Option<Monster>, monster_b: Option<Monster>) -> (r: Result<
    (Monster, Monster),
    BattleError,
>)
    ensures
        r is Ok <==> monster_a is Some && monster_b is Some,
        monster_a is None <==> r == Err::<(Monster, Monster), BattleError>(
            BattleError::MonsterANotFound,
        ),
        monster_a is Some && monster_b is None <==> r == Err::<(Monster, Monster), BattleError>(
            BattleError::MonsterBNotFound,
        ),
        r is Ok ==> r->Ok_0.0 == monster_a->Some_0 && r->Ok_0.1 == monster_b->Some_0,
{
    match (monster_a, monster_b) {
        (Some(a), Some(b)) => Ok((a, b)),
        (None, _) => Err(BattleError::MonsterANotFound),
        (Some(_), None) => Err(BattleError::MonsterBNotFound),
    }
}

/// Build the battle record for two fetched creature snapshots: run the
/// engine and stamp the record with a freshly generated identifier. The
/// caller persists the record; neither snapshot is changed.
pub fn create_battle(monster_a: &Monster, monster_b: &Monster) -> (r: Battle)
    ensures
        r.monster_a@ == monster_a.id@,
        r.monster_b@ == monster_b.id@,
        r.winner@ == spec_winner_id(*monster_a, *monster_b),
        r.winner@ == monster_a.id@ || r.winner@ == monster_b.id@,
        r.id@.len() == 36,
{
    let winner = resolve_battle(monster_a, monster_b);
    Battle {
        id: fresh_uuid_string(),
        monster_a: monster_a.id.clone(),
        monster_b: monster_b.id.clone(),
        winner,
    }
}

} // verus!
