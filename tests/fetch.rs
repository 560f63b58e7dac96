use gacha::hk4e::GachaType as Hk4eType;
use gacha::hkrpg::GachaType as HkrpgType;
use gacha::{
    filter_url, merge_family_logs, CategoryFetch, CollectError, Endpoint, FetchStep, GachaRecord, GachaType,
    GameType, LanguageCode, Response, ResponseData,
};

const CANDIDATE: &str = "https://public-operation-hk4e.mihoyo.com/gacha_info/api/getGachaLog?win_mode=fullscreen&authkey_ver=1&sign_type=2&auth_appid=webview_gacha&init_type=301&lang=zh-cn&authkey=ab%2Bcd%3D&game_biz=hk4e_cn&gacha_type=301&page=1&size=5&end_id=0";

fn record(id: u64) -> GachaRecord {
    GachaRecord {
        uid: "100000001".to_string(),
        gacha_id: Some("1".to_string()),
        gacha_type: "301".to_string(),
        item_id: "10001".to_string(),
        count: Some("1".to_string()),
        time: "2024-01-01 12:00:00".to_string(),
        name: None,
        lang: LanguageCode::ZhCn,
        item_type: None,
        rank_type: Some("3".to_string()),
        id: id.to_string(),
    }
}

fn page(list: Vec<GachaRecord>) -> Response {
    Response {
        retcode: 0,
        message: "OK".to_string(),
        data: Some(ResponseData {
            page: Some("0".to_string()),
            size: "20".to_string(),
            list,
            region: Some("cn_gf01".to_string()),
            region_time_zone: Some(8),
        }),
    }
}

/// A mock server: `n` records, newest first, in pages of at most 20; after
/// the last record an empty page, or no data when `absent_end` is set.
fn serve(n: u64, absent_end: bool, url: &str) -> Response {
    let start = match url.split("end_id=").nth(1) {
        Some(id) => n - id.parse::<u64>().unwrap() + 1,
        None => 0,
    };
    let ids: Vec<u64> = (start..n).take(20).map(|i| n - i).collect();
    if ids.is_empty() && absent_end {
        return Response { retcode: 0, message: "OK".to_string(), data: None };
    }
    page(ids.into_iter().map(record).collect())
}

fn run(n: u64, absent_end: bool) -> (ResponseData, usize) {
    let endpoint = Endpoint::parse(CANDIDATE).unwrap();
    let mut fetch = CategoryFetch::new(&endpoint, GachaType::Hk4e(Hk4eType::CharacterEventWish));
    let mut requests = 0;
    loop {
        let url = fetch.request_url();
        requests += 1;
        match fetch.on_response(serve(n, absent_end, &url)) {
            FetchStep::Continue(next) => fetch = next,
            FetchStep::Finished(d) => return (d, requests),
            FetchStep::Failed(e) => panic!("unexpected failure {}", e.code),
        }
    }
}

#[test]
fn sanitized_endpoint_keeps_the_five_keys() {
    let e = filter_url(&Endpoint::parse(CANDIDATE).unwrap());
    let keys: Vec<(&str, &str)> = e.query.iter().map(|(k, v)| (k.as_str(), v.as_str())).collect();
    assert_eq!(
        keys,
        vec![("authkey_ver", "1"), ("sign_type", "2"), ("lang", "zh-cn"), ("authkey", "ab+cd="), ("game_biz", "hk4e_cn")]
    );
    assert_eq!(e.base, "https://public-operation-hk4e.mihoyo.com/gacha_info/api/getGachaLog");
    assert_eq!(
        e.url_string(),
        "https://public-operation-hk4e.mihoyo.com/gacha_info/api/getGachaLog?authkey_ver=1&sign_type=2&lang=zh-cn&authkey=ab%2Bcd%3D&game_biz=hk4e_cn"
    );
}

#[test]
fn unparseable_candidate_is_none() {
    assert!(Endpoint::parse("not a url").is_none());
}

#[test]
fn first_request_carries_category_and_size() {
    let endpoint = Endpoint::parse(CANDIDATE).unwrap();
    let fetch = CategoryFetch::new(&endpoint, GachaType::Hk4e(Hk4eType::WeaponEventWish));
    let url = fetch.request_url();
    assert!(url.ends_with("&game_biz=hk4e_cn&gacha_type=302&real_gacha_type=302&size=20"));
    assert!(!url.contains("end_id"));
    assert!(!url.contains("win_mode"));
    match fetch.on_response(page(vec![record(9), record(8)])) {
        FetchStep::Continue(next) => assert!(next.request_url().ends_with("&size=20&end_id=8")),
        _ => panic!("expected another page"),
    }
}

#[test]
fn pagination_reads_every_page_then_stops() {
    let (d, requests) = run(45, false);
    assert_eq!(requests, 4);
    assert_eq!(d.list.len(), 45);
    let ids: Vec<u64> = d.list.iter().map(|r| r.id.parse().unwrap()).collect();
    assert_eq!(ids, (1..=45).rev().collect::<Vec<u64>>());
    assert_eq!(d.size, "45");
    assert_eq!(d.page, Some("1".to_string()));
    assert_eq!(d.region_time_zone, Some(8));
}

#[test]
fn pagination_exact_pages_then_absent_data() {
    let (d, requests) = run(40, true);
    assert_eq!(d.list.len(), 40);
    assert_eq!(requests, 3);
    let (d, requests) = run(40, false);
    assert_eq!(d.list.len(), 40);
    assert_eq!(requests, 3);
}

#[test]
fn pagination_of_empty_category() {
    let (d, requests) = run(0, false);
    assert_eq!(requests, 1);
    assert!(d.list.is_empty());
    assert_eq!(d.size, "0");
    let (d, requests) = run(0, true);
    assert_eq!(requests, 1);
    assert!(d.list.is_empty());
}

#[test]
fn replay_is_identical() {
    let (a, na) = run(33, false);
    let (b, nb) = run(33, false);
    assert_eq!(a, b);
    assert_eq!(na, nb);
}

#[test]
fn api_error_aborts_the_category() {
    let endpoint = Endpoint::parse(CANDIDATE).unwrap();
    let fetch = CategoryFetch::new(&endpoint, GachaType::Hk4e(Hk4eType::PermanentWish));
    let fetch = match fetch.on_response(page(vec![record(3)])) {
        FetchStep::Continue(next) => next,
        _ => panic!("expected another page"),
    };
    let refused = Response { retcode: -101, message: "authkey timeout".to_string(), data: None };
    match fetch.on_response(refused) {
        FetchStep::Failed(e) => {
            assert_eq!(e.code, -101);
            assert_eq!(e.message, "authkey timeout");
        },
        _ => panic!("expected failure"),
    }
}

#[test]
fn failed_category_is_dropped() {
    let (b, _) = run(7, false);
    let doc = merge_family_logs(GameType::Hk4eCN, vec![None, Some(b)]).unwrap();
    let c = &doc.hk4e.as_ref().unwrap()[0];
    assert_eq!(c.list.len(), 7);
    assert_eq!(c.timezone, 8);
    assert_eq!(c.list[0].id, "7");
    assert!(doc.hkrpg.is_none() && doc.nap.is_none());
}

#[test]
fn all_categories_failed_is_no_data() {
    assert_eq!(merge_family_logs(GameType::Hk4eCN, vec![None, None]).unwrap_err(), CollectError::NoDataFound);
    let (empty, _) = run(0, false);
    assert_eq!(merge_family_logs(GameType::NapCN, vec![Some(empty), None]).unwrap_err(), CollectError::NoDataFound);
}

#[test]
fn merge_concatenates_in_category_order() {
    let (mut a, _) = run(3, false);
    let (mut b, _) = run(2, false);
    for r in a.list.iter_mut().chain(b.list.iter_mut()) {
        r.gacha_type = "1".to_string();
    }
    let doc = merge_family_logs(GameType::HkrpgGlobal, vec![Some(a), None, Some(b)]).unwrap();
    let c = &doc.hkrpg.as_ref().unwrap()[0];
    let ids: Vec<&str> = c.list.iter().map(|i| i.id.as_str()).collect();
    assert_eq!(ids, vec!["3", "2", "1", "2", "1"]);
    assert_eq!(c.list[0].gacha_type, HkrpgType::StellarWarp);
}

#[test]
fn merge_without_time_zone_fails_for_zoned_titles() {
    let (mut a, _) = run(2, false);
    a.region_time_zone = None;
    assert_eq!(merge_family_logs(GameType::NapGlobal, vec![Some(a)]).unwrap_err(), CollectError::MissingTimezone);
}
