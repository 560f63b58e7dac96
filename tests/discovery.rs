use gacha::{
    endpoint_candidates, filter_url, find_game_data_path, get_latest_folder, probe_accepts, select_endpoint,
    DiscoveryError, DiscoveryStep, Endpoint, FolderEntry,
};

const GOOD: &str = "https://hk4e-api.mihoyo.com/event/gacha_info/api/getGachaLog?authkey_ver=1&sign_type=2&authkey=GOOD&game_biz=hk4e_cn&lang=zh-cn&gacha_type=301&end_id=";
const BAD: &str = "https://hk4e-api.mihoyo.com/event/gacha_info/api/getGachaLog?authkey_ver=1&sign_type=2&authkey=BAD&game_biz=hk4e_cn&lang=zh-cn&gacha_type=301&end_id=";

fn blob(first: &str, second: &str) -> Vec<u8> {
    let mut b: Vec<u8> = Vec::new();
    b.extend_from_slice(b"\x00\xff\xfeheader1/0/junk ");
    b.extend_from_slice(first.as_bytes());
    b.extend_from_slice(b"0\x9f\x921/0/\x01\x02 ");
    b.extend_from_slice(second.as_bytes());
    b.extend_from_slice(b"1 tail\xc3");
    b
}

fn discover(candidates: &Vec<Endpoint>, valid: impl Fn(&Endpoint) -> bool) -> Result<Endpoint, DiscoveryError> {
    let mut verdicts: Vec<bool> = Vec::new();
    loop {
        match select_endpoint(candidates, &verdicts) {
            DiscoveryStep::Probe(i) => verdicts.push(valid(&candidates[i])),
            DiscoveryStep::Found(e) => return Ok(e),
            DiscoveryStep::NoValidCandidate => return Err(DiscoveryError::NoValidCandidate),
        }
    }
}

fn is_good(e: &Endpoint) -> bool {
    e.query.iter().any(|(k, v)| k == "authkey" && v == "GOOD")
}

#[test]
fn data_path_found_in_log() {
    let log = "[0000] Loading player data from C:/Program Files/Genshin Impact/Genshin Impact Game/YuanShen_Data/data.unity3d\nother";
    assert_eq!(
        find_game_data_path(log),
        Ok("C:/Program Files/Genshin Impact/Genshin Impact Game/YuanShen_Data".to_string())
    );
    assert_eq!(find_game_data_path("nothing here"), Err(DiscoveryError::PathPatternNotFound));
}

#[test]
fn latest_folder_by_time_then_name() {
    assert_eq!(get_latest_folder(&vec![]), Err(DiscoveryError::CacheDirNotFound));
    let entries = vec![
        FolderEntry { name: "2.20.0.0".to_string(), modified: Some(5) },
        FolderEntry { name: "2.31.0.0".to_string(), modified: Some(9) },
        FolderEntry { name: "2.30.0.0".to_string(), modified: Some(9) },
        FolderEntry { name: "9.99.0.0".to_string(), modified: None },
    ];
    assert_eq!(get_latest_folder(&entries), Ok(1));
}

#[test]
fn candidates_come_from_the_last_chunk_first() {
    let cands = endpoint_candidates(&blob(BAD, GOOD));
    assert_eq!(cands.len(), 2);
    assert!(is_good(&cands[0]));
    assert!(!is_good(&cands[1]));
    assert!(endpoint_candidates(&[]).is_empty());
}

#[test]
fn discovery_returns_the_working_candidate_either_way() {
    for b in [blob(BAD, GOOD), blob(GOOD, BAD)] {
        let cands = endpoint_candidates(&b);
        let found = discover(&cands, is_good).unwrap();
        let expected = filter_url(&Endpoint::parse(GOOD).unwrap());
        assert_eq!(found, expected);
        assert!(!found.query.iter().any(|(k, _)| k == "gacha_type" || k == "end_id"));
    }
}

#[test]
fn discovery_without_working_candidate_fails() {
    let cands = endpoint_candidates(&blob(BAD, BAD));
    assert_eq!(discover(&cands, is_good), Err(DiscoveryError::NoValidCandidate));
    assert_eq!(discover(&vec![], is_good), Err(DiscoveryError::NoValidCandidate));
}

#[test]
fn probe_reads_the_status_code() {
    assert!(probe_accepts("{\"retcode\":0,\"message\":\"OK\",\"data\":null}"));
    assert!(!probe_accepts("{\"retcode\":-101,\"message\":\"authkey timeout\"}"));
    assert!(!probe_accepts("<html>not json</html>"));
    assert!(!probe_accepts("{\"message\":\"no code\"}"));
}
