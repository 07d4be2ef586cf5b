use monster_battle::api::{CreateBattleRequest, Response};
use monster_battle::battle::{check_battle_ids, create_battle, require_both_monsters, Battle, BattleError};
use monster_battle::ids::id_is_valid;
use monster_battle::monster::Monster;

const ID_A: &str = "550e8400-e29b-41d4-a716-446655440000";
const ID_B: &str = "67e55044-10b1-426f-9247-bb680e5fe0c8";

fn monster(id: &str, attack: i32, defense: i32, hp: i32, speed: i32) -> Monster {
    Monster {
        id: id.to_string(),
        name: "a monster".to_string(),
        image_url: "https://example.com/image.png".to_string(),
        attack,
        defense,
        hp,
        speed,
    }
}

#[test]
fn valid_ids_pass_format_check() {
    assert!(id_is_valid(ID_A));
    assert!(id_is_valid(ID_B));
    assert_eq!(check_battle_ids(ID_A, ID_B), Ok(()));
}

#[test]
fn malformed_ids_fail_format_check() {
    assert!(!id_is_valid("not-a-uuid"));
    assert!(!id_is_valid(""));
    assert!(!id_is_valid("550e8400-e29b-41d4-a716-44665544000g"));
}

#[test]
fn malformed_first_id_reports_monster_a() {
    assert_eq!(
        check_battle_ids("junk", ID_B),
        Err(BattleError::MonsterANotFound)
    );
    assert_eq!(
        check_battle_ids("junk", "more junk"),
        Err(BattleError::MonsterANotFound)
    );
}

#[test]
fn malformed_second_id_reports_monster_b() {
    assert_eq!(
        check_battle_ids(ID_A, "junk"),
        Err(BattleError::MonsterBNotFound)
    );
}

#[test]
fn created_battle_records_participants_and_winner() {
    let a = monster(ID_A, 30, 10, 50, 50);
    let b = monster(ID_B, 20, 5, 40, 40);
    let battle: Battle = create_battle(&a, &b);
    assert_eq!(battle.monster_a, ID_A);
    assert_eq!(battle.monster_b, ID_B);
    assert_eq!(battle.winner, ID_A);
    assert_eq!(battle.id.len(), 36);
    assert!(uuid::Uuid::parse_str(&battle.id).is_ok());
}

#[test]
fn created_battles_get_distinct_ids() {
    let a = monster(ID_A, 30, 10, 50, 50);
    let b = monster(ID_B, 20, 5, 40, 40);
    let one = create_battle(&a, &b);
    let two = create_battle(&a, &b);
    assert_ne!(one.id, two.id);
    assert_eq!(one.winner, two.winner);
}

#[test]
fn battle_request_with_both_ids_yields_them() {
    let request = CreateBattleRequest {
        monster_a: Some(ID_A.to_string()),
        monster_b: Some(ID_B.to_string()),
    };
    assert_eq!(request.ids(), Some((ID_A.to_string(), ID_B.to_string())));
}

#[test]
fn battle_request_missing_an_id_yields_none() {
    let request = CreateBattleRequest {
        monster_a: Some(ID_A.to_string()),
        monster_b: None,
    };
    assert_eq!(request.ids(), None);
    let request = CreateBattleRequest {
        monster_a: None,
        monster_b: Some(ID_B.to_string()),
    };
    assert_eq!(request.ids(), None);
}

#[test]
fn missing_monsters_are_reported_in_order() {
    let a = monster(ID_A, 1, 1, 1, 1);
    let b = monster(ID_B, 2, 2, 2, 2);
    let ok = require_both_monsters(Some(a.clone()), Some(b.clone()));
    match ok {
        Ok((got_a, got_b)) => {
            assert_eq!(got_a, a);
            assert_eq!(got_b, b);
        }
        Err(_) => panic!("both monsters were present"),
    }
    assert_eq!(
        require_both_monsters(None, Some(b.clone())),
        Err(BattleError::MonsterANotFound)
    );
    assert_eq!(
        require_both_monsters(Some(a.clone()), None),
        Err(BattleError::MonsterBNotFound)
    );
    assert_eq!(
        require_both_monsters(None, None),
        Err(BattleError::MonsterANotFound)
    );
}

#[test]
fn response_carries_its_message() {
    let response = Response::new("Everything is working fine".to_string());
    assert_eq!(response.message, "Everything is working fine");
}

#[test]
fn monster_validation_checks_attack_range() {
    assert!(monster(ID_A, 0, 0, 1, 1).validate());
    assert!(monster(ID_A, 100, 0, 1, 1).validate());
    assert!(!monster(ID_A, 101, 0, 1, 1).validate());
    assert!(!monster(ID_A, -1, 0, 1, 1).validate());
}
