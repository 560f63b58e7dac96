//! Endpoint discovery: from the client's log to the installation folder,
//! from its web cache to URL candidates, and from live probes to one
//! validated endpoint.

use vstd::prelude::*;

use crate::endpoint::{filter_url, sanitized, Endpoint, QueryText, url_parts};
use crate::text::{text_before, text_less};

verus! {

/// Matches the client's installation data folder in its log.
pub const DATA_PATH_PATTERN: &'static str =
    "([A-Z]:/.*?(GenshinImpact_Data|YuanShen_Data|StarRail_Data|ZenlessZoneZero_Data))";

/// Matches the query endpoint's URL shape in the web cache.
pub const URL_PATTERN: &'static str = "(https://.+?/api/getGachaLog.+?authkey=.+?end_id=)";

/// Chunk framing left in the cache blob by HTTP/1.1 chunked transfers.
pub const CHUNK_DELIMITER: &'static str = "1/0/";

/// Folder, under the data folder, that holds the client's web caches.
pub const WEB_CACHES_DIR: &'static str = "webCaches";

/// Path of the cache blob inside one web-cache folder.
pub const CACHE_BLOB_PATH: &'static str = "Cache/Cache_Data/data_2";

/// The leftmost-first match of the regular expression `pattern` in `text`.
pub uninterp spec fn regex_first_match(pattern: Seq<char>, text: Seq<char>) -> Option<Seq<char>>;

/// The successive non-overlapping matches of `pattern` in `text`.
pub uninterp spec fn regex_matches(pattern: Seq<char>, text: Seq<char>) -> Seq<Seq<char>>;

/// The text of `bytes` with each invalid UTF-8 sequence replaced by U+FFFD.
pub uninterp spec fn lossy_utf8(bytes: Seq<u8>) -> Seq<char>;

/// The integer under the key `retcode` of the JSON object in `body`, if
/// the body is JSON and that member is an integer that fits.
pub uninterp spec fn json_retcode(body: Seq<char>) -> Option<i64>;

/// Relies on `regex_lite::Regex::new` and `Regex::find`: the leftmost-first
/// match; `None` as well where the pattern does not compile.
#[verifier::external_body]
fn first_match(pattern: &str, text: &str) -> (r: Option<String>)
    ensures
        match r {
            Some(m) => regex_first_match(pattern@, text@) == Some(m@),
            None => regex_first_match(pattern@, text@) is None,
        },
{
    regex_lite::Regex::new(pattern).ok()?.find(text).map(|m| m.as_str().to_string())
}

/// The text of each string.
pub open spec fn strings_text(v: Seq<String>) -> Seq<Seq<char>> {
    v.map_values(|s: String| s@)
}

/// Relies on `regex_lite::Regex::new` and `Regex::find_iter`: every
/// successive non-overlapping match, in order; none where the pattern does
/// not compile.
#[verifier::external_body]
fn all_matches(pattern: &str, text: &str) -> (r: Vec<String>)
    ensures
        strings_text(r@) == regex_matches(pattern@, text@),
{
    match regex_lite::Regex::new(pattern) {
        Ok(re) => re.find_iter(text).map(|m| m.as_str().to_string()).collect(),
        Err(_) => Vec::new(),
    }
}

/// Relies on `String::from_utf8_lossy`: the decoding never fails; invalid
/// sequences become U+FFFD.
#[verifier::external_body]
fn decode_lossy(bytes: &[u8]) -> (r: String)
    ensures
        r@ == lossy_utf8(bytes@),
        bytes@.len() == 0 ==> r@.len() == 0,
{
    String::from_utf8_lossy(bytes).into_owned()
}

/// Whether `d` occurs in `s`.
pub open spec fn contains_text(s: Seq<char>, d: Seq<char>) -> bool {
    exists|i: int| 0 <= i && i + d.len() <= s.len() && #[trigger] s.subrange(i, i + d.len()) == d
}

/// The chunks joined again with the delimiter `d` between each two.
pub open spec fn joined(chunks: Seq<Seq<char>>, d: Seq<char>) -> Seq<char>
    decreases chunks.len(),
{
    if chunks.len() == 0 {
        Seq::empty()
    } else if chunks.len() == 1 {
        chunks[0]
    } else {
        joined(chunks.drop_last(), d) + d + chunks.last()
    }
}

/// Relies on `str::split` with a string pattern: the pieces between the
/// occurrences of `delim`, which joined by `delim` give `text` back and hold
/// no occurrence of it.
#[verifier::external_body]
fn split_text(text: &str, delim: &str) -> (r: Vec<String>)
    requires
        delim@.len() > 0,
    ensures
        r@.len() >= 1,
        joined(strings_text(r@), delim@) == text@,
        forall|i: int| 0 <= i < r@.len() ==> !contains_text(#[trigger] r@[i]@, delim@),
{
    text.split(delim).map(|c| c.to_string()).collect()
}

/// Relies on `serde_json::from_str` into a `serde_json::Value`, then
/// `Value::get("retcode")` and `Value::as_i64`.
#[verifier::external_body]
fn body_retcode(body: &str) -> (r: Option<i64>)
    ensures
        r == json_retcode(body@),
{
    serde_json::from_str::<serde_json::Value>(body).ok()?.get("retcode")?.as_i64()
}

/// Why no endpoint could be discovered.
#[derive(Debug, Clone, Copy, PartialEq, Eq, Structural)]
pub enum DiscoveryError {
    /// The client's log is absent or unreadable.
    LogNotFound,
    /// The log names no installation data folder.
    PathPatternNotFound,
    /// The installation has no web-cache folder.
    CacheDirNotFound,
    /// No candidate URL passed its probe.
    NoValidCandidate,
}

/// Finds the installation data folder named in the client's log.
pub fn find_game_data_path(log_data: &str) -> (r: Result<String, DiscoveryError>)
    ensures
        match regex_first_match(DATA_PATH_PATTERN@, log_data@) {
            Some(m) => r matches Ok(p) && p@ == m,
            None => r == Err::<String, DiscoveryError>(DiscoveryError::PathPatternNotFound),
        },
{
    match first_match(DATA_PATH_PATTERN, log_data) {
        Some(p) => Ok(p),
        None => Err(DiscoveryError::PathPatternNotFound),
    }
}

/// A subfolder of the web-cache folder, with its modification time in
/// nanoseconds since the Unix epoch where it is known.
#[derive(Debug, Clone, PartialEq)]
pub struct FolderEntry {
    pub name: String,
    pub modified: Option<u128>,
}

/// Whether `a` ranks below `b`: an older (or unknown) modification time, or
/// an equal one and a name that comes first.
pub open spec fn folder_before(a: FolderEntry, b: FolderEntry) -> bool {
    match (a.modified, b.modified) {
        (None, Some(_)) => true,
        (Some(x), Some(y)) => x < y || (x == y && text_less(a.name@, b.name@)),
        (None, None) => text_less(a.name@, b.name@),
        (Some(_), None) => false,
    }
}

fn entry_before(a: &FolderEntry, b: &FolderEntry) -> (r: bool)
    ensures
        r == folder_before(*a, *b),
{
    match (a.modified, b.modified) {
        (None, Some(_)) => true,
        (Some(x), Some(y)) => x < y || (x == y && text_before(a.name.as_str(), b.name.as_str())),
        (None, None) => text_before(a.name.as_str(), b.name.as_str()),
        (Some(_), None) => false,
    }
}

proof fn lemma_text_less_transitive(a: Seq<char>, b: Seq<char>, c: Seq<char>)
    requires
        text_less(a, b),
        text_less(b, c),
    ensures
        text_less(a, c),
    decreases a.len(),
{
    if a.len() > 0 && b.len() > 0 && c.len() > 0 && a[0] == b[0] && b[0] == c[0] {
        lemma_text_less_transitive(a.drop_first(), b.drop_first(), c.drop_first());
    }
}

proof fn lemma_folder_before_transitive(a: FolderEntry, b: FolderEntry, c: FolderEntry)
    requires
        folder_before(a, b),
        folder_before(b, c),
    ensures
        folder_before(a, c),
{
    if folder_before(a, b) && folder_before(b, c) {
        if text_less(a.name@, b.name@) && text_less(b.name@, c.name@) {
            lemma_text_less_transitive(a.name@, b.name@, c.name@);
        }
    }
}

/// Picks the most recently modified web-cache folder; among equally recent
/// ones, the one whose name comes last.
pub fn get_latest_folder(entries: &Vec<FolderEntry>) -> (r: Result<usize, DiscoveryError>)
    ensures
        entries@.len() == 0 ==> r == Err::<usize, DiscoveryError>(DiscoveryError::CacheDirNotFound),
        entries@.len() > 0 ==> (r matches Ok(i) && i < entries@.len() && forall|j: int|
            0 <= j < entries@.len() ==> !folder_before(entries@[i as int], #[trigger] entries@[j])),
{
    if entries.len() == 0 {
        return Err(DiscoveryError::CacheDirNotFound);
    }
    let mut best: usize = 0;
    proof {
        lemma_folder_before_irreflexive(entries@[0]);
    }
    for i in 1..entries.len()
        invariant
            entries@.len() > 0,
            best < entries@.len(),
            forall|j: int| 0 <= j < i ==> !folder_before(entries@[best as int], #[trigger] entries@[j]),
    {
        if entry_before(&entries[best], &entries[i]) {
            proof {
                assert forall|j: int| 0 <= j < i + 1 implies !folder_before(entries@[i as int], #[trigger] entries@[j]) by {
                    if j < i && folder_before(entries@[i as int], entries@[j]) {
                        lemma_folder_before_transitive(entries@[best as int], entries@[i as int], entries@[j]);
                    }
                    if j == i {
                        lemma_folder_before_irreflexive(entries@[j]);
                    }
                }
            }
            best = i;
        }
    }
    Ok(best)
}

proof fn lemma_text_less_irreflexive(a: Seq<char>)
    ensures
        !text_less(a, a),
    decreases a.len(),
{
    if a.len() > 0 {
        lemma_text_less_irreflexive(a.drop_first());
    }
}

proof fn lemma_folder_before_irreflexive(a: FolderEntry)
    ensures
        !folder_before(a, a),
{
    lemma_text_less_irreflexive(a.name@);
}

/// An endpoint's text: base and query pairs.
pub type EndpointText = (Seq<char>, QueryText);

/// The text of each endpoint.
pub open spec fn endpoints_text(v: Seq<Endpoint>) -> Seq<EndpointText> {
    v.map_values(|e: Endpoint| e.text())
}

/// The matched texts that read as URLs, in order.
pub open spec fn parsed_urls(ms: Seq<Seq<char>>) -> Seq<EndpointText>
    decreases ms.len(),
{
    if ms.len() == 0 {
        Seq::empty()
    } else {
        parsed_urls(ms.drop_last()) + match url_parts(ms.last()) {
            Some(p) => seq![p],
            None => Seq::empty(),
        }
    }
}

/// The URL candidates of a chunk sequence: chunks from the last to the
/// first, and within a chunk the matches in the order found.
pub open spec fn candidates_of(chunks: Seq<Seq<char>>) -> Seq<EndpointText>
    decreases chunks.len(),
{
    if chunks.len() == 0 {
        Seq::empty()
    } else {
        candidates_of(chunks.drop_first()) + parsed_urls(regex_matches(URL_PATTERN@, chunks[0]))
    }
}

fn urls_in_chunk(chunk: &str) -> (r: Vec<Endpoint>)
    ensures
        endpoints_text(r@) == parsed_urls(regex_matches(URL_PATTERN@, chunk@)),
{
    let ms = all_matches(URL_PATTERN, chunk);
    let ghost texts = strings_text(ms@);
    let mut out: Vec<Endpoint> = Vec::new();
    for i in 0..ms.len()
        invariant
            texts == strings_text(ms@),
            endpoints_text(out@) == parsed_urls(texts.take(i as int)),
    {
        proof {
            assert(texts.take(i + 1).drop_last() =~= texts.take(i as int));
            assert(texts.take(i + 1).last() == ms@[i as int]@);
        }
        let ghost before = out@;
        match Endpoint::parse(ms[i].as_str()) {
            Some(e) => {
                out.push(e);
                proof {
                    assert(endpoints_text(out@) =~= endpoints_text(before) + seq![e.text()]);
                }
            },
            None => {
                proof {
                    assert(parsed_urls(texts.take(i + 1)) =~= parsed_urls(texts.take(i as int)));
                }
            },
        }
    }
    proof {
        assert(texts.take(ms@.len() as int) =~= texts);
    }
    out
}

/// The URL candidates of chunks of the cache text, freshest first: chunks
/// from the last to the first, and within a chunk in the order found.
pub fn candidates_in_chunks(chunks: &Vec<String>) -> (r: Vec<Endpoint>)
    ensures
        endpoints_text(r@) == candidates_of(strings_text(chunks@)),
{
    let ghost texts = strings_text(chunks@);
    let n = chunks.len();
    let mut out: Vec<Endpoint> = Vec::new();
    let mut i: usize = n;
    assert(texts.subrange(n as int, n as int) =~= Seq::<Seq<char>>::empty());
    assert(endpoints_text(out@) =~= Seq::<EndpointText>::empty());
    while i > 0
        invariant
            n == chunks@.len(),
            texts == strings_text(chunks@),
            i <= n,
            endpoints_text(out@) == candidates_of(texts.subrange(i as int, n as int)),
        decreases i,
    {
        i = i - 1;
        proof {
            assert(texts.subrange(i as int, n as int).drop_first() =~= texts.subrange(i + 1, n as int));
            assert(texts.subrange(i as int, n as int)[0] == chunks@[i as int]@);
        }
        let ghost before = out@;
        let mut found = urls_in_chunk(chunks[i].as_str());
        let ghost added = found@;
        out.append(&mut found);
        proof {
            assert(endpoints_text(out@) =~= endpoints_text(before) + endpoints_text(added));
        }
    }
    assert(texts.subrange(0, n as int) =~= texts);
    out
}

/// The URL candidates in a web-cache blob, freshest first: the blob decoded
/// permissively, cut at the chunk framing, then read from the last chunk to
/// the first.
pub fn endpoint_candidates(blob: &[u8]) -> (r: Vec<Endpoint>)
    ensures
        exists|chunks: Seq<Seq<char>>|
            {
                &&& joined(chunks, CHUNK_DELIMITER@) == lossy_utf8(blob@)
                &&& forall|i: int|
                    0 <= i < chunks.len() ==> !contains_text(#[trigger] chunks[i], CHUNK_DELIMITER@)
                &&& endpoints_text(r@) == candidates_of(chunks)
            },
{
    let text = decode_lossy(blob);
    proof {
        reveal_strlit("1/0/");
    }
    let chunks = split_text(text.as_str(), CHUNK_DELIMITER);
    let r = candidates_in_chunks(&chunks);
    let ghost texts = strings_text(chunks@);
    assert(joined(texts, CHUNK_DELIMITER@) == lossy_utf8(blob@));
    assert forall|i: int| 0 <= i < texts.len() implies !contains_text(#[trigger] texts[i], CHUNK_DELIMITER@) by {
        assert(texts[i] == chunks@[i]@);
    }
    r
}

/// Whether a probe's response body says the endpoint works: a JSON object
/// whose `retcode` is 0.
pub fn probe_accepts(body: &str) -> (r: bool)
    ensures
        r == (json_retcode(body@) == Some(0i64)),
{
    match body_retcode(body) {
        Some(c) => c == 0,
        None => false,
    }
}

/// The index of the first `true`, if any.
pub open spec fn first_accepted(verdicts: Seq<bool>) -> Option<int>
    decreases verdicts.len(),
{
    if verdicts.len() == 0 {
        None
    } else {
        match first_accepted(verdicts.drop_last()) {
            Some(k) => Some(k),
            None => if verdicts.last() {
                Some(verdicts.len() - 1)
            } else {
                None
            },
        }
    }
}

/// Where discovery stands.
pub ghost enum Selection {
    /// Probe the candidate with this index next.
    Probe(int),
    /// This (sanitized) endpoint passed its probe.
    Found(EndpointText),
    /// Every candidate failed.
    Exhausted,
}

/// The decision after the first `verdicts.len()` candidates were probed.
pub open spec fn selection(cands: Seq<EndpointText>, verdicts: Seq<bool>) -> Selection {
    let n = if verdicts.len() < cands.len() {
        verdicts.len()
    } else {
        cands.len()
    };
    match first_accepted(verdicts.take(n as int)) {
        Some(k) => Selection::Found((cands[k].0, sanitized(cands[k].1))),
        None => if verdicts.len() < cands.len() {
            Selection::Probe(verdicts.len() as int)
        } else {
            Selection::Exhausted
        },
    }
}

/// What discovery does next.
#[derive(Debug)]
pub enum DiscoveryStep {
    /// Probe the candidate with this index and report the verdict.
    Probe(usize),
    /// The validated endpoint.
    Found(Endpoint),
    /// No candidate passed.
    NoValidCandidate,
}

impl DiscoveryStep {
    pub open spec fn spec_selection(self) -> Selection {
        match self {
            DiscoveryStep::Probe(i) => Selection::Probe(i as int),
            DiscoveryStep::Found(e) => Selection::Found(e.text()),
            DiscoveryStep::NoValidCandidate => Selection::Exhausted,
        }
    }
}

/// Decides, from the verdicts of the probes made so far (one per candidate,
/// in order), which candidate to probe next, or the validated endpoint: the
/// first candidate that passed, sanitized.
pub fn select_endpoint(candidates: &Vec<Endpoint>, verdicts: &Vec<bool>) -> (r: DiscoveryStep)
    ensures
        r.spec_selection() == selection(endpoints_text(candidates@), verdicts@),
{
    let n = if verdicts.len() < candidates.len() {
        verdicts.len()
    } else {
        candidates.len()
    };
    let ghost cands = endpoints_text(candidates@);
    for i in 0..n
        invariant
            n == (if verdicts@.len() < candidates@.len() {
                verdicts@.len()
            } else {
                candidates@.len()
            }),
            cands == endpoints_text(candidates@),
            first_accepted(verdicts@.take(i as int)) is None,
    {
        proof {
            assert(verdicts@.take(i + 1).drop_last() =~= verdicts@.take(i as int));
        }
        if verdicts[i] {
            proof {
                lemma_first_accepted_prefix(verdicts@, i as int, n as int);
                assert(cands[i as int] == candidates@[i as int].text());
            }
            let e = filter_url(&candidates[i]);
            return DiscoveryStep::Found(e);
        }
    }
    if verdicts.len() < candidates.len() {
        DiscoveryStep::Probe(verdicts.len())
    } else {
        DiscoveryStep::NoValidCandidate
    }
}

proof fn lemma_first_accepted_prefix(v: Seq<bool>, k: int, n: int)
    requires
        0 <= k < n <= v.len(),
        v[k],
        first_accepted(v.take(k)) is None,
    ensures
        first_accepted(v.take(n)) == Some(k),
    decreases n - k,
{
    if n == k + 1 {
        assert(v.take(n).drop_last() =~= v.take(k));
    } else {
        lemma_first_accepted_prefix(v, k, n - 1);
        assert(v.take(n).drop_last() =~= v.take(n - 1));
    }
}

/// Discovery probes the candidates in order and stops at the first that
/// passes: if candidate `k` is the first whose probe succeeds, then after
/// each earlier failure the next candidate is probed, and once `k` has
/// passed the result is `k`'s sanitized form, wherever the failing
/// candidates stand and whatever the later ones would answer.
pub proof fn lemma_first_success_wins(cands: Seq<EndpointText>, ok: Seq<bool>, k: int)
    requires
        ok.len() == cands.len(),
        0 <= k < ok.len(),
        ok[k],
        forall|j: int| 0 <= j < k ==> !#[trigger] ok[j],
    ensures
        forall|j: int| 0 <= j <= k ==> #[trigger] selection(cands, ok.take(j)) == Selection::Probe(j),
        selection(cands, ok.take(k + 1)) == Selection::Found((cands[k].0, sanitized(cands[k].1))),
{
    assert forall|j: int| 0 <= j <= k implies #[trigger] selection(cands, ok.take(j)) == Selection::Probe(j) by {
        lemma_none_accepted(ok, j);
        assert(ok.take(j).take(j) =~= ok.take(j));
    }
    lemma_none_accepted(ok, k);
    assert(ok.take(k + 1).take(k + 1) =~= ok.take(k + 1));
    assert(ok.take(k + 1).drop_last() =~= ok.take(k));
}

proof fn lemma_none_accepted(v: Seq<bool>, j: int)
    requires
        0 <= j <= v.len(),
        forall|i: int| 0 <= i < j ==> !#[trigger] v[i],
    ensures
        first_accepted(v.take(j)) is None,
    decreases j,
{
    if j > 0 {
        assert(v.take(j).drop_last() =~= v.take(j - 1));
        lemma_none_accepted(v, j - 1);
    }
}

} // verus!
