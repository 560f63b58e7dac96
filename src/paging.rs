//! Cursor pagination over one category, as a state machine: the caller
//! performs each request and hands the response back.

use vstd::prelude::*;

use crate::endpoint::{filter_url, sanitized, url_text, Endpoint, QueryText};
use crate::game::GachaType;
use crate::record::GachaRecord;
use crate::response::{Response, ResponseData};
use crate::text::{decimal_text, format_decimal};

verus! {

/// Number of records asked for per page.
pub const PAGE_SIZE: &'static str = "20";

/// Pause between two pages of one category, in milliseconds, to respect the
/// vendor's rate limit.
pub const PAGE_DELAY_MS: u64 = 500;

/// The query of the first request for a category: the sanitized endpoint
/// query, the category code under both of its names, and the page size.
pub open spec fn category_query(q: QueryText, code: Seq<char>) -> QueryText {
    sanitized(q).push(("gacha_type"@, code)).push(("real_gacha_type"@, code)).push(
        ("size"@, PAGE_SIZE@),
    )
}

/// What one response does to a fetch that has gathered `records`.
pub ghost enum Progress {
    /// Go on with the next page, from the given cursor.
    Continue(Seq<GachaRecord>, Seq<char>),
    /// The category is exhausted; these are all of its records.
    Finished(Seq<GachaRecord>),
    /// The API refused with this code; the category yields nothing.
    Failed(i64),
}

pub open spec fn advance(records: Seq<GachaRecord>, resp: Response) -> Progress {
    if resp.retcode != 0 {
        Progress::Failed(resp.retcode)
    } else {
        match resp.data {
            None => Progress::Finished(records),
            Some(d) => if d.list@.len() == 0 {
                Progress::Finished(records)
            } else {
                Progress::Continue(records + d.list@, d.list@.last().id@)
            },
        }
    }
}

/// The outcome of feeding `rs` to a fetch that has gathered `records`, with
/// the number of responses used; `None` while no response has ended it.
pub open spec fn replay(records: Seq<GachaRecord>, rs: Seq<Response>) -> Option<(Progress, nat)>
    decreases rs.len(),
{
    if rs.len() == 0 {
        None
    } else {
        match advance(records, rs[0]) {
            Progress::Continue(next, _) => match replay(next, rs.drop_first()) {
                Some(o) => Some((o.0, o.1 + 1)),
                None => None,
            },
            p => Some((p, 1)),
        }
    }
}

/// A non-zero status from the API, with its message.
#[derive(Debug, Clone, PartialEq)]
pub struct ApiError {
    pub code: i64,
    pub message: String,
}

/// The state of fetching one category.
#[derive(Debug)]
pub struct CategoryFetch {
    /// The endpoint with the category's parameters, without cursor.
    pub request: Endpoint,
    /// Records gathered so far, in delivery order.
    pub records: Vec<GachaRecord>,
    /// Id of the last record received, once a page has come.
    pub cursor: Option<String>,
    /// Region of the first page that carried data.
    pub region: Option<String>,
    /// Time-zone offset of the first page that carried data.
    pub region_time_zone: Option<i64>,
    /// Whether a page with data has come.
    pub started: bool,
}

/// What a fetch does after one response.
#[derive(Debug)]
pub enum FetchStep {
    /// Wait the page delay, then request the next page.
    Continue(CategoryFetch),
    /// All records of the category, in delivery order.
    Finished(ResponseData),
    /// The API refused; nothing of the category is kept.
    Failed(ApiError),
}

impl FetchStep {
    /// Whether two steps agree: the same next state, the same records and
    /// page data, or the same error.
    pub open spec fn same_as(self, other: FetchStep) -> bool {
        match (self, other) {
            (FetchStep::Continue(a), FetchStep::Continue(b)) => a.same_as(b),
            (FetchStep::Finished(a), FetchStep::Finished(b)) => {
                &&& a.list@ == b.list@
                &&& a.page is Some && b.page is Some && a.page->0@ == b.page->0@
                &&& a.size@ == b.size@
                &&& a.region == b.region
                &&& a.region_time_zone == b.region_time_zone
            },
            (FetchStep::Failed(a), FetchStep::Failed(b)) => a.code == b.code && a.message == b.message,
            _ => false,
        }
    }

    pub open spec fn progress(self) -> Progress {
        match self {
            FetchStep::Continue(f) => Progress::Continue(
                f.records@,
                match f.cursor {
                    Some(c) => c@,
                    None => Seq::empty(),
                },
            ),
            FetchStep::Finished(d) => Progress::Finished(d.list@),
            FetchStep::Failed(e) => Progress::Failed(e.code),
        }
    }
}

impl CategoryFetch {
    /// The query of the next request: the category query, then the cursor
    /// under `end_id` once there is one.
    pub open spec fn next_query(self) -> QueryText {
        match self.cursor {
            None => self.request.query_text(),
            Some(c) => self.request.query_text().push(("end_id"@, c@)),
        }
    }

    /// What taking the response `resp` does: `r` is the step that follows.
    pub open spec fn steps_to(self, resp: Response, r: FetchStep) -> bool {
        &&& r.progress() == advance(self.records@, resp)
        &&& r matches FetchStep::Continue(next) ==> (next.request == self.request && next.cursor is Some
            && next.started && (if self.started {
            next.region == self.region && next.region_time_zone == self.region_time_zone
        } else {
            next.region == resp.data->0.region && next.region_time_zone == resp.data->0.region_time_zone
        }))
        &&& r matches FetchStep::Failed(e) ==> e.message == resp.message && e.code == resp.retcode
        &&& r matches FetchStep::Finished(d) ==> (d.page matches Some(p) && p@ == "1"@) && d.size@
            == decimal_text(d.list@.len()) && (if self.started || resp.data is None {
            d.region == self.region && d.region_time_zone == self.region_time_zone
        } else {
            d.region == resp.data->0.region && d.region_time_zone == resp.data->0.region_time_zone
        })
    }

    /// Whether two fetches stand at the same point: same request, records,
    /// cursor text, region, offset and progress.
    pub open spec fn same_as(self, other: CategoryFetch) -> bool {
        &&& self.request.text() == other.request.text()
        &&& self.records@ == other.records@
        &&& self.cursor is Some == other.cursor is Some
        &&& (self.cursor matches Some(c) ==> c@ == other.cursor->0@)
        &&& self.region == other.region
        &&& self.region_time_zone == other.region_time_zone
        &&& self.started == other.started
    }

    /// Starts fetching the category `gacha_type` from a validated or
    /// candidate endpoint.
    pub fn new(url: &Endpoint, gacha_type: GachaType) -> (r: CategoryFetch)
        ensures
            r.request.base == url.base,
            r.request.query_text() == category_query(url.query_text(), gacha_type.spec_code()),
            r.records@.len() == 0,
            r.cursor is None,
            r.region is None,
            r.region_time_zone is None,
            !r.started,
    {
        let code = gacha_type.code();
        let request = filter_url(url).with_pair("gacha_type", code).with_pair("real_gacha_type", code).with_pair(
            "size",
            PAGE_SIZE,
        );
        CategoryFetch {
            request,
            records: Vec::new(),
            cursor: None,
            region: None,
            region_time_zone: None,
            started: false,
        }
    }

    /// The URL of the next request.
    pub fn request_url(&self) -> (r: String)
        ensures
            r@ == url_text(self.request.base@, self.next_query()),
    {
        match &self.cursor {
            None => self.request.url_string(),
            Some(c) => self.request.with_pair("end_id", c.as_str()).url_string(),
        }
    }

    /// Takes the response to the request of `request_url`.
    pub fn on_response(self, resp: Response) -> (r: FetchStep)
        ensures
            self.steps_to(resp, r),
    {
        if resp.retcode != 0 {
            return FetchStep::Failed(ApiError { code: resp.retcode, message: resp.message });
        }
        let CategoryFetch { request, mut records, cursor: _, mut region, mut region_time_zone, started } =
            self;
        match resp.data {
            None => FetchStep::Finished(finish(records, region, region_time_zone)),
            Some(d) => {
                let ResponseData { page: _, size: _, list, region: page_region, region_time_zone: page_zone } =
                    d;
                if !started {
                    region = page_region;
                    region_time_zone = page_zone;
                }
                let n = list.len();
                if n == 0 {
                    FetchStep::Finished(finish(records, region, region_time_zone))
                } else {
                    let last = list[n - 1].id.clone();
                    let mut list = list;
                    records.append(&mut list);
                    FetchStep::Continue(
                        CategoryFetch {
                            request,
                            records,
                            cursor: Some(last),
                            region,
                            region_time_zone,
                            started: true,
                        },
                    )
                }
            },
        }
    }
}

fn finish(records: Vec<GachaRecord>, region: Option<String>, region_time_zone: Option<i64>) -> (r:
    ResponseData)
    ensures
        r.list == records,
        (r.page matches Some(p) && p@ == "1"@),
        r.size@ == decimal_text(records@.len()),
        r.region == region,
        r.region_time_zone == region_time_zone,
{
    ResponseData {
        page: Some(String::from_str("1")),
        size: format_decimal(records.len()),
        list: records,
        region,
        region_time_zone,
    }
}

/// Whether `r` is a successful response carrying exactly the page `p`.
pub open spec fn serves_page(r: Response, p: Seq<GachaRecord>) -> bool {
    r.retcode == 0 && (r.data matches Some(d) && d.list@ == p)
}

/// Whether `r` is a successful response that ends a category: no data, or
/// an empty page.
pub open spec fn serves_end(r: Response) -> bool {
    r.retcode == 0 && (r.data matches Some(d) ==> d.list@.len() == 0)
}

/// A server that delivers the non-empty pages `pages`, then an empty page
/// (or no data), is read in exactly one request per page plus the one that
/// sees the end, and the fetch returns every record, page after page, in
/// delivery order.
pub proof fn lemma_pagination_exhaustion(
    records: Seq<GachaRecord>,
    pages: Seq<Seq<GachaRecord>>,
    rs: Seq<Response>,
)
    requires
        rs.len() == pages.len() + 1,
        forall|i: int| 0 <= i < pages.len() ==> #[trigger] pages[i].len() > 0 && serves_page(rs[i], pages[i]),
        serves_end(rs.last()),
    ensures
        replay(records, rs) == Some((Progress::Finished(records + pages.flatten()), rs.len())),
    decreases pages.len(),
{
    if pages.len() == 0 {
        assert(pages.flatten() =~= Seq::<GachaRecord>::empty());
        assert(records + pages.flatten() =~= records);
    } else {
        assert(pages[0].len() > 0 && serves_page(rs[0], pages[0]));
        let next = records + pages[0];
        assert(advance(records, rs[0]) == Progress::Continue(next, pages[0].last().id@));
        let rest = pages.drop_first();
        assert forall|i: int| 0 <= i < rest.len() implies #[trigger] rest[i].len() > 0 && serves_page(
            rs.drop_first()[i],
            rest[i],
        ) by {
            assert(pages[i + 1].len() > 0 && serves_page(rs[i + 1], pages[i + 1]));
        }
        lemma_pagination_exhaustion(next, rest, rs.drop_first());
        assert(next + rest.flatten() =~= records + pages.flatten());
    }
}

/// When a server fills every page but the last, the number of pages is
/// the record count divided by the page size, rounded up; with the request
/// that sees the end, a fetch of `n` records makes `(n + 19) / 20 + 1`
/// requests.
pub proof fn lemma_page_count(pages: Seq<Seq<GachaRecord>>)
    requires
        pages.len() > 0,
        forall|i: int| 0 <= i < pages.len() - 1 ==> (#[trigger] pages[i]).len() == 20,
        1 <= pages.last().len() <= 20,
    ensures
        (pages.flatten().len() + 19) / 20 == pages.len(),
    decreases pages.len(),
{
    let rest = pages.drop_first();
    assert(pages.flatten() == pages[0] + rest.flatten());
    if pages.len() == 1 {
        assert(rest.flatten() =~= Seq::<GachaRecord>::empty());
    } else {
        assert(pages[0].len() == 20);
        assert forall|i: int| 0 <= i < rest.len() - 1 implies (#[trigger] rest[i]).len() == 20 by {
            assert(pages[i + 1].len() == 20);
        }
        lemma_page_count(rest);
    }
}

/// Fetching is a function of what the server sends: two fetches of the same
/// category from the same endpoint start alike, and two fetches that stand
/// alike and receive the same response take the same step, so against the
/// same responses a re-run gathers the same records in the same order, with
/// the same page data or the same error.
pub proof fn lemma_replay_identical(
    a: CategoryFetch,
    b: CategoryFetch,
    resp: Response,
    ra: FetchStep,
    rb: FetchStep,
)
    requires
        a.same_as(b),
        a.steps_to(resp, ra),
        b.steps_to(resp, rb),
    ensures
        ra.same_as(rb),
{
    match ra {
        FetchStep::Continue(x) => {
            let y = rb->Continue_0;
            assert(x.request.text() == y.request.text());
        },
        _ => {},
    }
}

/// Every fresh fetch of a category from one endpoint stands at the same
/// point: nothing gathered, no cursor, the same first request.
pub proof fn lemma_fresh_fetches_alike(a: CategoryFetch, b: CategoryFetch)
    requires
        a.request.text() == b.request.text(),
        a.records@.len() == 0,
        b.records@.len() == 0,
        a.cursor is None,
        b.cursor is None,
        a.region is None,
        b.region is None,
        a.region_time_zone is None,
        b.region_time_zone is None,
        !a.started,
        !b.started,
    ensures
        a.same_as(b),
{
    assert(a.records@ =~= b.records@);
}

} // verus!
