use gacha::hk4e::{get_time_zone_by_uid, GachaType as Hk4eType, Hk4e, Hk4eItem, UigfGachaType};
use gacha::hkrpg::{GachaType as HkrpgType, Hkrpg, HkrpgItem};
use gacha::nap::{GachaType as NapType, NapItem};
use gacha::text::{format_decimal, parse_u64, same_text, text_before};
use gacha::{
    get_uigf_with_gacha_log, parse_game, CollectError, ExportTimestamp, GachaRecord, GachaType, GameType,
    Info, LanguageCode, RecordError, ResponseData, Uid, UigfV4,
};

fn record(uid: &str, gacha_type: &str, id: &str) -> GachaRecord {
    GachaRecord {
        uid: uid.to_string(),
        gacha_id: None,
        gacha_type: gacha_type.to_string(),
        item_id: "10001".to_string(),
        count: Some("1".to_string()),
        time: "2024-01-01 12:00:00".to_string(),
        name: Some("Amber".to_string()),
        lang: LanguageCode::EnUs,
        item_type: Some("Character".to_string()),
        rank_type: Some("4".to_string()),
        id: id.to_string(),
    }
}

fn data(list: Vec<GachaRecord>, zone: Option<i64>) -> ResponseData {
    ResponseData { page: None, size: "20".to_string(), list, region: None, region_time_zone: zone }
}

#[test]
fn time_zone_inferred_from_uid() {
    assert_eq!(get_time_zone_by_uid("600000000"), -5);
    assert_eq!(get_time_zone_by_uid("700000000"), 1);
    assert_eq!(get_time_zone_by_uid("100000000"), 8);
    assert_eq!(get_time_zone_by_uid(""), 8);
}

#[test]
fn hk4e_collection_infers_zone() {
    let c = Hk4e::from_records(vec![record("600000000", "301", "1")], None).unwrap();
    assert_eq!(c.timezone, -5);
    assert_eq!(c.uid, Uid::Integer(600000000));
    assert_eq!(c.lang, Some(LanguageCode::EnUs));
    let c = Hk4e::from_records(vec![record("700000000", "301", "1")], None).unwrap();
    assert_eq!(c.timezone, 1);
    let c = Hk4e::from_records(vec![record("100000000", "301", "1")], None).unwrap();
    assert_eq!(c.timezone, 8);
    let c = Hk4e::from_records(vec![record("600000000", "301", "1")], Some(3)).unwrap();
    assert_eq!(c.timezone, 3);
}

#[test]
fn empty_collection_is_no_data() {
    assert_eq!(Hk4e::from_records(vec![], None), Err(CollectError::NoDataFound));
    assert_eq!(Hkrpg::from_records(vec![], Some(8)), Err(CollectError::NoDataFound));
}

#[test]
fn hkrpg_requires_time_zone() {
    let mut r = record("100000000", "11", "1");
    r.gacha_id = Some("2003".to_string());
    assert_eq!(Hkrpg::from_records(vec![r.clone()], None), Err(CollectError::MissingTimezone));
    let c = Hkrpg::from_records(vec![r], Some(8)).unwrap();
    assert_eq!(c.timezone, 8);
    assert_eq!(c.list.len(), 1);
    assert_eq!(c.list[0].gacha_type, HkrpgType::CharacterEventWarp);
    assert_eq!(c.list[0].gacha_id, "2003");
}

#[test]
fn hk4e_item_collapses_second_character_banner() {
    let item = Hk4eItem::from_record(record("1", "400", "7")).unwrap();
    assert_eq!(item.gacha_type, Hk4eType::CharacterEventWish2);
    assert_eq!(item.uigf_gacha_type, UigfGachaType::CharacterEventWish);
    assert_eq!(item.id, "7");
    assert_eq!(item.item_id, "10001");
    assert_eq!(item.name.as_deref(), Some("Amber"));
    assert_eq!(Hk4eType::WeaponEventWish.to_uigf(), UigfGachaType::WeaponEventWish);
    assert_eq!(UigfGachaType::ChronicledWish.code(), "500");
}

#[test]
fn unknown_category_code_is_rejected() {
    assert_eq!(Hk4eItem::from_record(record("1", "999", "7")), Err(RecordError::InvalidCategoryCode));
    assert_eq!(NapItem::from_record(record("1", "4", "7")), Err(RecordError::InvalidCategoryCode));
}

#[test]
fn hkrpg_item_needs_banner_id() {
    assert_eq!(HkrpgItem::from_record(record("1", "1", "7")), Err(RecordError::MissingField));
}

#[test]
fn nap_item_keeps_optional_banner_id() {
    let item = NapItem::from_record(record("1", "5", "7")).unwrap();
    assert_eq!(item.gacha_type, NapType::BangbooChannel);
    assert_eq!(item.gacha_id, None);
}

#[test]
fn bad_records_are_dropped_not_fatal() {
    let recs = vec![record("1", "301", "1"), record("1", "xyz", "2"), record("1", "200", "3")];
    let c = Hk4e::from_records(recs, None).unwrap();
    assert_eq!(c.list.len(), 2);
    assert_eq!(c.list[0].id, "1");
    assert_eq!(c.list[1].id, "3");
}

#[test]
fn category_codes_round_trip() {
    for t in Hk4eType::all_variants() {
        assert_eq!(Hk4eType::from_code(t.code()), Some(t));
    }
    for t in HkrpgType::all_variants() {
        assert_eq!(HkrpgType::from_code(t.code()), Some(t));
    }
    for t in NapType::all_variants() {
        assert_eq!(NapType::from_code(t.code()), Some(t));
    }
    assert_eq!(Hk4eType::all_variants().len(), 6);
    assert_eq!(GachaType::Nap(NapType::WEngineChannel).code(), "3");
}

#[test]
fn uid_and_timestamp_parse() {
    assert_eq!(Uid::parse("123456789"), Uid::Integer(123456789));
    assert_eq!(Uid::parse("abc"), Uid::String("abc".to_string()));
    assert_eq!(ExportTimestamp::parse("1700000000"), ExportTimestamp::Integer(1700000000));
    assert_eq!(ExportTimestamp::parse("soon"), ExportTimestamp::String("soon".to_string()));
}

#[test]
fn decimal_text_read_and_written() {
    assert_eq!(parse_u64("123"), Some(123));
    assert_eq!(parse_u64("+5"), Some(5));
    assert_eq!(parse_u64(""), None);
    assert_eq!(parse_u64("+"), None);
    assert_eq!(parse_u64("-1"), None);
    assert_eq!(parse_u64("12a"), None);
    assert_eq!(parse_u64("18446744073709551615"), Some(u64::MAX));
    assert_eq!(parse_u64("18446744073709551616"), None);
    assert_eq!(format_decimal(0), "0");
    assert_eq!(format_decimal(120), "120");
    assert!(same_text("abc", "abc"));
    assert!(!same_text("abc", "abd"));
    assert!(text_before("ab", "abc"));
    assert!(text_before("abc", "abd"));
    assert!(!text_before("b", "abc"));
}

#[test]
fn game_names_parse() {
    assert_eq!(parse_game("hk4ecn"), Ok(GameType::Hk4eCN));
    assert_eq!(parse_game("napglobal"), Ok(GameType::NapGlobal));
    assert_eq!(parse_game("hkrpgglobal"), Ok(GameType::HkrpgGlobal));
    assert_eq!(parse_game("bogus"), Err("invalid game".to_string()));
}

#[test]
fn document_constructors() {
    let info = Info::new();
    assert_eq!(info.version, "v4.0");
    assert!(matches!(info.export_timestamp, ExportTimestamp::Integer(n) if n > 0));
    let doc = UigfV4::new();
    assert!(doc.hk4e.is_none() && doc.hkrpg.is_none() && doc.nap.is_none());
    let doc = UigfV4::new_hk4e(vec![]);
    assert_eq!(doc.hk4e, Some(vec![]));
    assert!(UigfV4::new_hkrpg(vec![]).hkrpg.is_some());
    assert!(UigfV4::new_nap(vec![]).nap.is_some());
}

#[test]
fn one_collection_per_usable_response() {
    let logs = vec![
        data(vec![record("1", "301", "1")], None),
        data(vec![], None),
        data(vec![record("2", "302", "2"), record("2", "302", "3")], None),
    ];
    let doc = get_uigf_with_gacha_log(GachaType::Hk4e(Hk4eType::CharacterEventWish), logs);
    let v = doc.hk4e.unwrap();
    assert_eq!(v.len(), 2);
    assert_eq!(v[0].list.len(), 1);
    assert_eq!(v[1].list.len(), 2);
    assert!(doc.hkrpg.is_none());
}

#[test]
fn uid_and_timestamp_from_str() {
    assert_eq!("42".parse::<Uid>(), Ok(Uid::Integer(42)));
    assert_eq!("x42".parse::<Uid>(), Ok(Uid::String("x42".to_string())));
    assert_eq!("7".parse::<ExportTimestamp>(), Ok(ExportTimestamp::Integer(7)));
}
