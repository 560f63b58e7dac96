//! The query endpoint: a URL held as the text before its query plus the
//! ordered, decoded query pairs.

use vstd::prelude::*;

use crate::text::same_text;

verus! {

/// Text of a query pair list.
pub type QueryText = Seq<(Seq<char>, Seq<char>)>;

/// What `url::Url::parse` makes of a text: the URL up to the end of its path,
/// and its decoded query pairs in order; `None` where the text is no URL.
pub uninterp spec fn url_parts(s: Seq<char>) -> Option<(Seq<char>, QueryText)>;

/// The `application/x-www-form-urlencoded` serialization of a pair list.
pub uninterp spec fn form_encoded(pairs: QueryText) -> Seq<char>;

/// The text of each pair.
pub open spec fn pairs_text(v: Seq<(String, String)>) -> QueryText {
    v.map_values(|p: (String, String)| (p.0@, p.1@))
}

/// Relies on `url::Url::parse`, then `Url::query_pairs` for the decoded pairs
/// and `Url`'s slicing up to `Position::AfterPath` for the rest.
#[verifier::external_body]
fn split_url(s: &str) -> (r: Option<(String, Vec<(String, String)>)>)
    ensures
        match r {
            Some(p) => url_parts(s@) == Some((p.0@, pairs_text(p.1@))),
            None => url_parts(s@) is None,
        },
{
    let u = url::Url::parse(s).ok()?;
    let pairs = u.query_pairs().map(|(k, v)| (k.into_owned(), v.into_owned())).collect();
    Some((u[..url::Position::AfterPath].to_string(), pairs))
}

/// Relies on `url::form_urlencoded::Serializer`: the pairs form-encoded, in order.
#[verifier::external_body]
fn encode_query(pairs: &Vec<(String, String)>) -> (r: String)
    ensures
        r@ == form_encoded(pairs_text(pairs@)),
{
    url::form_urlencoded::Serializer::new(String::new()).extend_pairs(pairs.iter()).finish()
}

/// Whether a query key is one of the authorization parameters kept on a
/// validated endpoint.
pub open spec fn is_recognized_key(k: Seq<char>) -> bool {
    k == "authkey"@ || k == "authkey_ver"@ || k == "sign_type"@ || k == "game_biz"@ || k == "lang"@
}

/// The pairs of `q` whose key is recognized, in their order.
pub open spec fn sanitized(q: QueryText) -> QueryText
    decreases q.len(),
{
    if q.len() == 0 {
        Seq::empty()
    } else if is_recognized_key(q.last().0) {
        sanitized(q.drop_last()).push(q.last())
    } else {
        sanitized(q.drop_last())
    }
}

/// The text of the URL with the given base and query pairs.
pub open spec fn url_text(base: Seq<char>, q: QueryText) -> Seq<char> {
    base + seq!['?'] + form_encoded(q)
}

/// An API endpoint: the URL before its query, and the query pairs.
#[derive(Debug, Clone, PartialEq)]
pub struct Endpoint {
    pub base: String,
    pub query: Vec<(String, String)>,
}

impl Endpoint {
    pub open spec fn query_text(self) -> QueryText {
        pairs_text(self.query@)
    }

    /// The endpoint as text: its base and its query pairs.
    pub open spec fn text(self) -> (Seq<char>, QueryText) {
        (self.base@, self.query_text())
    }

    /// Reads a URL; `None` where the text is no URL.
    pub fn parse(s: &str) -> (r: Option<Endpoint>)
        ensures
            match r {
                Some(e) => url_parts(s@) == Some(e.text()),
                None => url_parts(s@) is None,
            },
    {
        match split_url(s) {
            Some((base, query)) => Some(Endpoint { base, query }),
            None => None,
        }
    }

    /// The URL text, with the query form-encoded.
    pub fn url_string(&self) -> (r: String)
        ensures
            r@ == url_text(self.base@, self.query_text()),
    {
        let mut s = self.base.clone();
        s.append("?");
        s.append(encode_query(&self.query).as_str());
        proof {
            reveal_strlit("?");
        }
        s
    }

    /// A copy of this endpoint with one more query pair at the end.
    pub fn with_pair(&self, key: &str, value: &str) -> (r: Endpoint)
        ensures
            r.base == self.base,
            r.query_text() == self.query_text().push((key@, value@)),
    {
        let mut query = copy_pairs(&self.query);
        query.push((String::from_str(key), String::from_str(value)));
        proof {
            assert(pairs_text(query@) =~= self.query_text().push((key@, value@)));
        }
        Endpoint { base: self.base.clone(), query }
    }
}

fn copy_pairs(q: &Vec<(String, String)>) -> (r: Vec<(String, String)>)
    ensures
        r@ == q@,
{
    let mut r: Vec<(String, String)> = Vec::new();
    for i in 0..q.len()
        invariant
            r@ == q@.take(i as int),
    {
        proof {
            assert(q@.take(i + 1) =~= q@.take(i as int).push(q@[i as int]));
        }
        r.push((q[i].0.clone(), q[i].1.clone()));
    }
    assert(q@.take(q@.len() as int) =~= q@);
    r
}

/// Whether a key is one of the recognized authorization parameters.
pub fn recognized_key(k: &str) -> (r: bool)
    ensures
        r == is_recognized_key(k@),
{
    same_text(k, "authkey") || same_text(k, "authkey_ver") || same_text(k, "sign_type") || same_text(
        k,
        "game_biz",
    ) || same_text(k, "lang")
}

/// Keeps only the recognized authorization parameters of an endpoint's
/// query, in their order; everything else (a cursor, a category, a page
/// size) is dropped.
pub fn filter_url(url: &Endpoint) -> (r: Endpoint)
    ensures
        r.base == url.base,
        r.query_text() == sanitized(url.query_text()),
{
    let mut query: Vec<(String, String)> = Vec::new();
    for i in 0..url.query.len()
        invariant
            pairs_text(query@) == sanitized(url.query_text().take(i as int)),
    {
        let ghost q = url.query_text().take(i + 1);
        proof {
            assert(q.drop_last() =~= url.query_text().take(i as int));
        }
        let pair = &url.query[i];
        if recognized_key(pair.0.as_str()) {
            query.push((pair.0.clone(), pair.1.clone()));
            proof {
                assert(pairs_text(query@) =~= sanitized(url.query_text().take(i as int)).push(q.last()));
            }
        }
    }
    proof {
        assert(url.query_text().take(url.query@.len() as int) =~= url.query_text());
    }
    Endpoint { base: url.base.clone(), query }
}

proof fn lemma_push_contains(s: QueryText, x: (Seq<char>, Seq<char>), p: (Seq<char>, Seq<char>))
    ensures
        s.push(x).contains(p) <==> (s.contains(p) || p == x),
{
    if s.push(x).contains(p) {
        let j = choose|j: int| 0 <= j < s.len() + 1 && s.push(x)[j] == p;
        if j < s.len() {
            assert(s[j] == p);
        }
    }
    if s.contains(p) {
        let j = choose|j: int| 0 <= j < s.len() && s[j] == p;
        assert(s.push(x)[j] == p);
    }
    if p == x {
        assert(s.push(x)[s.len() as int] == p);
    }
}

proof fn lemma_sanitized_members(q: QueryText, p: (Seq<char>, Seq<char>))
    ensures
        sanitized(q).contains(p) <==> (q.contains(p) && is_recognized_key(p.0)),
    decreases q.len(),
{
    if q.len() > 0 {
        let d = q.drop_last();
        lemma_sanitized_members(d, p);
        assert(q =~= d.push(q.last()));
        lemma_push_contains(d, q.last(), p);
        if is_recognized_key(q.last().0) {
            lemma_push_contains(sanitized(d), q.last(), p);
        }
    }
}

/// A validated endpoint keeps exactly the recognized pairs of the candidate,
/// with their values: a pair is kept if and only if it was in the candidate
/// and its key is one of the authorization parameters. Cursor and category
/// parameters (`end_id`, `gacha_type`, `real_gacha_type`, `size`) never survive.
pub proof fn lemma_sanitized_exact(q: QueryText)
    ensures
        forall|p: (Seq<char>, Seq<char>)|
            #![trigger sanitized(q).contains(p)]
            sanitized(q).contains(p) <==> (q.contains(p) && is_recognized_key(p.0)),
        forall|p: (Seq<char>, Seq<char>)|
            #![trigger sanitized(q).contains(p)]
            sanitized(q).contains(p) ==> p.0 != "end_id"@ && p.0 != "gacha_type"@ && p.0
                != "real_gacha_type"@ && p.0 != "size"@,
{
    reveal_strlit("authkey");
    reveal_strlit("authkey_ver");
    reveal_strlit("sign_type");
    reveal_strlit("game_biz");
    reveal_strlit("lang");
    reveal_strlit("end_id");
    reveal_strlit("gacha_type");
    reveal_strlit("real_gacha_type");
    reveal_strlit("size");
    assert("end_id"@[0] != "authkey"@[0] && "end_id"@[0] != "sign_type"@[0] && "end_id"@[0] != "game_biz"@[0]
        && "end_id"@[0] != "lang"@[0] && "end_id"@.len() != "authkey_ver"@.len());
    assert("gacha_type"@[0] != "authkey"@[0] && "gacha_type"@[0] != "sign_type"@[0] && "gacha_type"@[2]
        != "game_biz"@[2] && "gacha_type"@[0] != "lang"@[0] && "gacha_type"@[0] != "authkey_ver"@[0]);
    assert("real_gacha_type"@[0] != "authkey"@[0] && "real_gacha_type"@[0] != "sign_type"@[0]
        && "real_gacha_type"@[0] != "game_biz"@[0] && "real_gacha_type"@[0] != "lang"@[0]
        && "real_gacha_type"@[0] != "authkey_ver"@[0]);
    assert("size"@[0] != "authkey"@[0] && "size"@[2] != "sign_type"@[2] && "size"@[0] != "game_biz"@[0]
        && "size"@[0] != "lang"@[0] && "size"@[0] != "authkey_ver"@[0]);
    assert forall|p: (Seq<char>, Seq<char>)|
        #![trigger sanitized(q).contains(p)]
        sanitized(q).contains(p) <==> (q.contains(p) && is_recognized_key(p.0)) by {
        lemma_sanitized_members(q, p);
    }
}

} // verus!
