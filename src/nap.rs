//! Zenless Zone Zero: categories, normalized items and the title collection.

use vstd::prelude::*;

use crate::record::{CollectError, GachaRecord, RecordError};
use crate::text::same_text;
use crate::uigf::{LanguageCode, Uid};

verus! {

/// Vendor category (banner kind).
#[derive(Debug, Clone, Copy, PartialEq, Eq, Hash, Structural)]
pub enum GachaType {
    StableChannel,
    ExclusiveChannel,
    WEngineChannel,
    BangbooChannel,
}

impl GachaType {
    pub open spec fn spec_code(self) -> Seq<char> {
        match self {
            GachaType::StableChannel => "1"@,
            GachaType::ExclusiveChannel => "2"@,
            GachaType::WEngineChannel => "3"@,
            GachaType::BangbooChannel => "5"@,
        }
    }

    /// The category whose code is `s`, if any.
    pub open spec fn of_code(s: Seq<char>) -> Option<GachaType> {
        if s == "1"@ {
            Some(GachaType::StableChannel)
        } else if s == "2"@ {
            Some(GachaType::ExclusiveChannel)
        } else if s == "3"@ {
            Some(GachaType::WEngineChannel)
        } else if s == "5"@ {
            Some(GachaType::BangbooChannel)
        } else {
            None
        }
    }

    /// The category code as the vendor API writes it.
    pub fn code(&self) -> (r: &'static str)
        ensures
            r@ == self.spec_code(),
    {
        match self {
            GachaType::StableChannel => "1",
            GachaType::ExclusiveChannel => "2",
            GachaType::WEngineChannel => "3",
            GachaType::BangbooChannel => "5",
        }
    }

    /// Reads a vendor category code.
    pub fn from_code(s: &str) -> (r: Option<GachaType>)
        ensures
            r == GachaType::of_code(s@),
    {
        if same_text(s, "1") {
            Some(GachaType::StableChannel)
        } else if same_text(s, "2") {
            Some(GachaType::ExclusiveChannel)
        } else if same_text(s, "3") {
            Some(GachaType::WEngineChannel)
        } else if same_text(s, "5") {
            Some(GachaType::BangbooChannel)
        } else {
            None
        }
    }

    /// Reading a category's own code gives the category back.
    pub proof fn lemma_code_round_trip(self)
        ensures
            GachaType::of_code(self.spec_code()) == Some(self),
    {
        reveal_strlit("1");
        reveal_strlit("2");
        reveal_strlit("3");
        reveal_strlit("5");
        assert("1"@[0] != "2"@[0]);
        assert("1"@[0] != "3"@[0]);
        assert("1"@[0] != "5"@[0]);
        assert("2"@[0] != "3"@[0]);
        assert("2"@[0] != "5"@[0]);
        assert("3"@[0] != "5"@[0]);
    }

    /// Every category of the title, in the order they are fetched.
    pub fn all_variants() -> (r: Vec<GachaType>)
        ensures
            r@ == seq![
                GachaType::StableChannel,
                GachaType::ExclusiveChannel,
                GachaType::WEngineChannel,
                GachaType::BangbooChannel,
            ],
    {
        vec![
            GachaType::StableChannel,
            GachaType::ExclusiveChannel,
            GachaType::WEngineChannel,
            GachaType::BangbooChannel,
        ]
    }
}

/// One normalized Zenless Zone Zero pull.
#[derive(Debug, Clone, PartialEq)]
pub struct NapItem {
    pub gacha_id: Option<String>,
    pub gacha_type: GachaType,
    pub item_id: String,
    pub count: Option<String>,
    pub time: String,
    pub name: Option<String>,
    pub item_type: Option<String>,
    pub rank_type: Option<String>,
    pub id: String,
}

impl NapItem {
    /// The normalized form of a raw record.
    pub open spec fn of_record(r: GachaRecord) -> Result<NapItem, RecordError> {
        match GachaType::of_code(r.gacha_type@) {
            Some(t) => Ok(
                NapItem {
                    gacha_id: r.gacha_id,
                    gacha_type: t,
                    item_id: r.item_id,
                    count: r.count,
                    time: r.time,
                    name: r.name,
                    item_type: r.item_type,
                    rank_type: r.rank_type,
                    id: r.id,
                },
            ),
            None => Err(RecordError::InvalidCategoryCode),
        }
    }

    /// Normalizes a raw record; fails on an unknown category code.
    pub fn from_record(r: GachaRecord) -> (res: Result<NapItem, RecordError>)
        ensures
            res == NapItem::of_record(r),
    {
        match GachaType::from_code(r.gacha_type.as_str()) {
            Some(t) => Ok(
                NapItem {
                    gacha_id: r.gacha_id,
                    gacha_type: t,
                    item_id: r.item_id,
                    count: r.count,
                    time: r.time,
                    name: r.name,
                    item_type: r.item_type,
                    rank_type: r.rank_type,
                    id: r.id,
                },
            ),
            None => Err(RecordError::InvalidCategoryCode),
        }
    }

    /// The normalized forms of the records that normalize, in order.
    pub open spec fn items_of(recs: Seq<GachaRecord>) -> Seq<NapItem>
        decreases recs.len(),
    {
        if recs.len() == 0 {
            Seq::empty()
        } else {
            match NapItem::of_record(recs.last()) {
                Ok(i) => NapItem::items_of(recs.drop_last()).push(i),
                Err(_) => NapItem::items_of(recs.drop_last()),
            }
        }
    }
}

/// One account's Zenless Zone Zero history.
#[derive(Debug, Clone, PartialEq)]
pub struct Nap {
    pub uid: Uid,
    pub timezone: i64,
    pub lang: Option<LanguageCode>,
    pub list: Vec<NapItem>,
}

impl Nap {
    /// Whether `self` is the collection of the non-empty record list `list`
    /// with time-zone offset `zone`.
    pub open spec fn built_from(self, list: Seq<GachaRecord>, zone: i64) -> bool {
        &&& self.uid.reads(list[0].uid@)
        &&& self.lang == Some(list[0].lang)
        &&& self.timezone == zone
        &&& self.list@ == NapItem::items_of(list)
    }

    /// When every record normalizes, the collection has one item per record.
    pub proof fn lemma_items_all(recs: Seq<GachaRecord>)
        requires
            forall|i: int| 0 <= i < recs.len() ==> (#[trigger] NapItem::of_record(recs[i])) is Ok,
        ensures
            NapItem::items_of(recs).len() == recs.len(),
        decreases recs.len(),
    {
        if recs.len() > 0 {
            assert(NapItem::of_record(recs[recs.len() - 1]) is Ok);
            Nap::lemma_items_all(recs.drop_last());
        }
    }

    /// Builds the collection from merged records: account and language come
    /// from the first record, the time-zone offset from the response (this
    /// title's API always sends one); records that do not normalize are left out.
    pub fn from_records(list: Vec<GachaRecord>, region_time_zone: Option<i64>) -> (r: Result<Nap, CollectError>)
        ensures
            list@.len() == 0 ==> r == Err::<Nap, CollectError>(CollectError::NoDataFound),
            list@.len() > 0 && region_time_zone is None ==> r == Err::<Nap, CollectError>(
                CollectError::MissingTimezone,
            ),
            list@.len() > 0 && region_time_zone is Some ==> (r matches Ok(c) && c.built_from(
                list@,
                region_time_zone->0,
            )),
    {
        if list.len() == 0 {
            return Err(CollectError::NoDataFound);
        }
        let timezone = match region_time_zone {
            Some(z) => z,
            None => {
                return Err(CollectError::MissingTimezone);
            },
        };
        let uid = Uid::parse(list[0].uid.as_str());
        let lang = list[0].lang;
        let ghost recs = list@;
        let mut items: Vec<NapItem> = Vec::new();
        for rec in it: list
            invariant
                it.seq() == recs,
                items@ == NapItem::items_of(recs.take(it.index() as int)),
        {
            proof {
                assert(recs.take(it.index() + 1).drop_last() =~= recs.take(it.index() as int));
            }
            match NapItem::from_record(rec) {
                Ok(i) => items.push(i),
                Err(_) => {},
            }
        }
        proof {
            assert(recs.take(recs.len() as int) =~= recs);
        }
        Ok(Nap { uid, timezone, lang: Some(lang), list: items })
    }
}

} // verus!
