use monster_battle::import::{import_csv, monster_from_row, parse_i32, str_eq, ImportError};

#[test]
fn parse_i32_reads_plain_numbers() {
    assert_eq!(parse_i32("42"), Some(42));
    assert_eq!(parse_i32("0"), Some(0));
    assert_eq!(parse_i32("-17"), Some(-17));
    assert_eq!(parse_i32("+5"), Some(5));
    assert_eq!(parse_i32("0082"), Some(82));
}

#[test]
fn parse_i32_rejects_other_shapes() {
    assert_eq!(parse_i32(""), None);
    assert_eq!(parse_i32("-"), None);
    assert_eq!(parse_i32("+"), None);
    assert_eq!(parse_i32("12a"), None);
    assert_eq!(parse_i32("a12"), None);
    assert_eq!(parse_i32(" 12"), None);
    assert_eq!(parse_i32("1 2"), None);
    assert_eq!(parse_i32("--4"), None);
}

#[test]
fn parse_i32_respects_type_bounds() {
    assert_eq!(parse_i32("2147483647"), Some(i32::MAX));
    assert_eq!(parse_i32("2147483648"), None);
    assert_eq!(parse_i32("-2147483648"), Some(i32::MIN));
    assert_eq!(parse_i32("-2147483649"), None);
    assert_eq!(parse_i32("99999999999999999999"), None);
}

#[test]
fn str_eq_compares_contents() {
    assert!(str_eq("attack", "attack"));
    assert!(!str_eq("attack", "attacks"));
    assert!(!str_eq("attack", "defense"));
    assert!(str_eq("", ""));
}

#[test]
fn import_reads_a_well_formed_document() {
    let data = "name,attack,defense,hp,speed,image_url\n\
        insect rabbit,82,45,66,42,https://loremflickr.com/640/480";
    let monsters = import_csv(data.as_bytes()).expect("import should succeed");
    assert_eq!(monsters.len(), 1);
    assert_eq!(monsters[0].name, "insect rabbit");
    assert_eq!(monsters[0].attack, 82);
    assert_eq!(monsters[0].defense, 45);
    assert_eq!(monsters[0].hp, 66);
    assert_eq!(monsters[0].speed, 42);
    assert_eq!(monsters[0].image_url, "https://loremflickr.com/640/480");
    assert_eq!(monsters[0].id, "");
}

#[test]
fn import_maps_columns_by_header_name() {
    let data = "speed,hp,defense,attack,image_url,name\n9,66,45,82,url,beetle";
    let monsters = import_csv(data.as_bytes()).expect("import should succeed");
    assert_eq!(monsters.len(), 1);
    assert_eq!(monsters[0].name, "beetle");
    assert_eq!(monsters[0].attack, 82);
    assert_eq!(monsters[0].defense, 45);
    assert_eq!(monsters[0].hp, 66);
    assert_eq!(monsters[0].speed, 9);
}

#[test]
fn import_keeps_record_order() {
    let data = "name,attack,defense,hp,speed,image_url\n\
        one,1,2,3,4,u\n\
        two,5,6,7,8,v";
    let monsters = import_csv(data.as_bytes()).expect("import should succeed");
    assert_eq!(monsters.len(), 2);
    assert_eq!(monsters[0].name, "one");
    assert_eq!(monsters[1].name, "two");
    assert_eq!(monsters[1].speed, 8);
}

#[test]
fn import_reads_quoted_fields() {
    let data = "name,attack,defense,hp,speed,image_url\n\
        \"rabbit, insect\",82,45,66,42,url";
    let monsters = import_csv(data.as_bytes()).expect("import should succeed");
    assert_eq!(monsters[0].name, "rabbit, insect");
}

#[test]
fn import_accepts_carriage_return_line_endings() {
    let data = "name,attack,defense,hp,speed,image_url\r\n\
        insect rabbit,82,45,66,42,https://loremflickr.com/640/480\r\n";
    let monsters = import_csv(data.as_bytes()).expect("import should succeed");
    assert_eq!(monsters.len(), 1);
    assert_eq!(monsters[0].attack, 82);
}

#[test]
fn import_skips_blank_lines_and_keeps_field_whitespace() {
    let data =
        "name,attack,defense,hp,speed,image_url\r\n\n        insect rabbit,82,45,66,42,url";
    let monsters = import_csv(data.as_bytes()).expect("import should succeed");
    assert_eq!(monsters.len(), 1);
    assert_eq!(monsters[0].name, "        insect rabbit");
    assert_eq!(monsters[0].hp, 66);
}

#[test]
fn import_fails_on_a_record_with_missing_columns() {
    let data = "name,attack,defense,hp,speed,image_url\n\
        insect rabbit,82,45,66,https://loremflickr.com/640/480";
    assert_eq!(import_csv(data.as_bytes()), Err(ImportError::BadData));
}

#[test]
fn import_fails_on_a_bad_number() {
    let data = "name,attack,defense,hp,speed,image_url\na,eighty,45,66,42,u";
    assert_eq!(import_csv(data.as_bytes()), Err(ImportError::BadData));
}

#[test]
fn import_fails_on_a_missing_required_header() {
    let data = "name,attack,defense,hp,image_url\na,82,45,66,u";
    assert_eq!(import_csv(data.as_bytes()), Err(ImportError::BadData));
}

#[test]
fn import_of_an_empty_document_reports_no_monsters() {
    assert_eq!(import_csv(b""), Err(ImportError::NoMonsters));
}

#[test]
fn import_of_a_header_only_document_reports_no_monsters() {
    let data = "name,attack,defense,hp,speed,image_url";
    assert_eq!(import_csv(data.as_bytes()), Err(ImportError::NoMonsters));
}

#[test]
fn imported_monster_takes_id_column_when_present() {
    let data = "id,name,attack,defense,hp,speed,image_url\nxyz,a,1,2,3,4,u";
    let monsters = import_csv(data.as_bytes()).expect("import should succeed");
    assert_eq!(monsters[0].id, "xyz");
}

#[test]
fn monster_from_row_requires_every_numeric_field() {
    let headers = vec![
        "name".to_string(),
        "attack".to_string(),
        "defense".to_string(),
        "hp".to_string(),
        "speed".to_string(),
        "image_url".to_string(),
    ];
    let good = vec![
        "a".to_string(),
        "1".to_string(),
        "2".to_string(),
        "3".to_string(),
        "4".to_string(),
        "u".to_string(),
    ];
    let bad = vec![
        "a".to_string(),
        "1".to_string(),
        "2".to_string(),
        "3".to_string(),
        "fast".to_string(),
        "u".to_string(),
    ];
    let m = monster_from_row(&headers, &good).expect("row should convert");
    assert_eq!(m.name, "a");
    assert_eq!(m.speed, 4);
    assert!(monster_from_row(&headers, &bad).is_none());
}
