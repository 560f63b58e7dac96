//! Honkai: Star Rail: categories, normalized items and the title collection.

use vstd::prelude::*;

use crate::record::{CollectError, GachaRecord, RecordError};
use crate::text::same_text;
use crate::uigf::{LanguageCode, Uid};

verus! {

/// Vendor category (banner kind).
#[derive(Debug, Clone, Copy, PartialEq, Eq, Hash, Structural)]
pub enum GachaType {
    StellarWarp,
    DepartureWarp,
    CharacterEventWarp,
    LightConeEventWarp,
    CharacterCollaborationWarp,
    LightConeCollaborationWarp,
}

impl GachaType {
    pub open spec fn spec_code(self) -> Seq<char> {
        match self {
            GachaType::StellarWarp => "1"@,
            GachaType::DepartureWarp => "2"@,
            GachaType::CharacterEventWarp => "11"@,
            GachaType::LightConeEventWarp => "12"@,
            GachaType::CharacterCollaborationWarp => "21"@,
            GachaType::LightConeCollaborationWarp => "22"@,
        }
    }

    /// The category whose code is `s`, if any.
    pub open spec fn of_code(s: Seq<char>) -> Option<GachaType> {
        if s == "1"@ {
            Some(GachaType::StellarWarp)
        } else if s == "2"@ {
            Some(GachaType::DepartureWarp)
        } else if s == "11"@ {
            Some(GachaType::CharacterEventWarp)
        } else if s == "12"@ {
            Some(GachaType::LightConeEventWarp)
        } else if s == "21"@ {
            Some(GachaType::CharacterCollaborationWarp)
        } else if s == "22"@ {
            Some(GachaType::LightConeCollaborationWarp)
        } else {
            None
        }
    }

    /// The category code as the vendor API writes it.
    pub fn code(&self) -> (r: &'static str)
        ensures
            r@ == self.spec_code(),
    {
        match self {
            GachaType::StellarWarp => "1",
            GachaType::DepartureWarp => "2",
            GachaType::CharacterEventWarp => "11",
            GachaType::LightConeEventWarp => "12",
            GachaType::CharacterCollaborationWarp => "21",
            GachaType::LightConeCollaborationWarp => "22",
        }
    }

    /// Reads a vendor category code.
    pub fn from_code(s: &str) -> (r: Option<GachaType>)
        ensures
            r == GachaType::of_code(s@),
    {
        if same_text(s, "1") {
            Some(GachaType::StellarWarp)
        } else if same_text(s, "2") {
            Some(GachaType::DepartureWarp)
        } else if same_text(s, "11") {
            Some(GachaType::CharacterEventWarp)
        } else if same_text(s, "12") {
            Some(GachaType::LightConeEventWarp)
        } else if same_text(s, "21") {
            Some(GachaType::CharacterCollaborationWarp)
        } else if same_text(s, "22") {
            Some(GachaType::LightConeCollaborationWarp)
        } else {
            None
        }
    }

    /// Reading a category's own code gives the category back.
    pub proof fn lemma_code_round_trip(self)
        ensures
            GachaType::of_code(self.spec_code()) == Some(self),
    {
        reveal_strlit("1");
        reveal_strlit("2");
        reveal_strlit("11");
        reveal_strlit("12");
        reveal_strlit("21");
        reveal_strlit("22");
        assert("1"@.len() != "11"@.len());
        assert("1"@.len() != "12"@.len());
        assert("1"@.len() != "21"@.len());
        assert("1"@.len() != "22"@.len());
        assert("2"@.len() != "11"@.len());
        assert("2"@.len() != "12"@.len());
        assert("2"@.len() != "21"@.len());
        assert("2"@.len() != "22"@.len());
        assert("1"@[0] != "2"@[0]);
        assert("11"@[1] != "12"@[1]);
        assert("11"@[0] != "21"@[0]);
        assert("11"@[0] != "22"@[0]);
        assert("12"@[0] != "21"@[0]);
        assert("12"@[0] != "22"@[0]);
        assert("21"@[1] != "22"@[1]);
    }

    /// Every category of the title, in the order they are fetched.
    pub fn all_variants() -> (r: Vec<GachaType>)
        ensures
            r@ == seq![
                GachaType::StellarWarp,
                GachaType::DepartureWarp,
                GachaType::CharacterEventWarp,
                GachaType::LightConeEventWarp,
                GachaType::CharacterCollaborationWarp,
                GachaType::LightConeCollaborationWarp,
            ],
    {
        vec![
            GachaType::StellarWarp,
            GachaType::DepartureWarp,
            GachaType::CharacterEventWarp,
            GachaType::LightConeEventWarp,
            GachaType::CharacterCollaborationWarp,
            GachaType::LightConeCollaborationWarp,
        ]
    }
}

/// One normalized Honkai: Star Rail pull.
#[derive(Debug, Clone, PartialEq)]
pub struct HkrpgItem {
    pub gacha_id: String,
    pub gacha_type: GachaType,
    pub item_id: String,
    pub count: Option<String>,
    pub time: String,
    pub name: Option<String>,
    pub item_type: Option<String>,
    pub rank_type: Option<String>,
    pub id: String,
}

impl HkrpgItem {
    /// The normalized form of a raw record.
    pub open spec fn of_record(r: GachaRecord) -> Result<HkrpgItem, RecordError> {
        match (GachaType::of_code(r.gacha_type@), r.gacha_id) {
            (Some(t), Some(g)) => Ok(
                HkrpgItem {
                    gacha_id: g,
                    gacha_type: t,
                    item_id: r.item_id,
                    count: r.count,
                    time: r.time,
                    name: r.name,
                    item_type: r.item_type,
                    rank_type: r.rank_type,
                    id: r.id,
                },
            ),
            (None, _) => Err(RecordError::InvalidCategoryCode),
            (Some(_), None) => Err(RecordError::MissingField),
        }
    }

    /// Normalizes a raw record; fails on an unknown category code or a missing banner id.
    pub fn from_record(r: GachaRecord) -> (res: Result<HkrpgItem, RecordError>)
        ensures
            res == HkrpgItem::of_record(r),
    {
        match (GachaType::from_code(r.gacha_type.as_str()), r.gacha_id) {
            (Some(t), Some(g)) => Ok(
                HkrpgItem {
                    gacha_id: g,
                    gacha_type: t,
                    item_id: r.item_id,
                    count: r.count,
                    time: r.time,
                    name: r.name,
                    item_type: r.item_type,
                    rank_type: r.rank_type,
                    id: r.id,
                },
            ),
            (None, _) => Err(RecordError::InvalidCategoryCode),
            (Some(_), None) => Err(RecordError::MissingField),
        }
    }

    /// The normalized forms of the records that normalize, in order.
    pub open spec fn items_of(recs: Seq<GachaRecord>) -> Seq<HkrpgItem>
        decreases recs.len(),
    {
        if recs.len() == 0 {
            Seq::empty()
        } else {
            match HkrpgItem::of_record(recs.last()) {
                Ok(i) => HkrpgItem::items_of(recs.drop_last()).push(i),
                Err(_) => HkrpgItem::items_of(recs.drop_last()),
            }
        }
    }
}

/// One account's Honkai: Star Rail history.
#[derive(Debug, Clone, PartialEq)]
pub struct Hkrpg {
    pub uid: Uid,
    pub timezone: i64,
    pub lang: Option<LanguageCode>,
    pub list: Vec<HkrpgItem>,
}

impl Hkrpg {
    /// Whether `self` is the collection of the non-empty record list `list`
    /// with time-zone offset `zone`.
    pub open spec fn built_from(self, list: Seq<GachaRecord>, zone: i64) -> bool {
        &&& self.uid.reads(list[0].uid@)
        &&& self.lang == Some(list[0].lang)
        &&& self.timezone == zone
        &&& self.list@ == HkrpgItem::items_of(list)
    }

    /// When every record normalizes, the collection has one item per record.
    pub proof fn lemma_items_all(recs: Seq<GachaRecord>)
        requires
            forall|i: int| 0 <= i < recs.len() ==> (#[trigger] HkrpgItem::of_record(recs[i])) is Ok,
        ensures
            HkrpgItem::items_of(recs).len() == recs.len(),
        decreases recs.len(),
    {
        if recs.len() > 0 {
            assert(HkrpgItem::of_record(recs[recs.len() - 1]) is Ok);
            Hkrpg::lemma_items_all(recs.drop_last());
        }
    }

    /// Builds the collection from merged records: account and language come
    /// from the first record, the time-zone offset from the response (this
    /// title's API always sends one); records that do not normalize are left out.
    pub fn from_records(list: Vec<GachaRecord>, region_time_zone: Option<i64>) -> (r: Result<Hkrpg, CollectError>)
        ensures
            list@.len() == 0 ==> r == Err::<Hkrpg, CollectError>(CollectError::NoDataFound),
            list@.len() > 0 && region_time_zone is None ==> r == Err::<Hkrpg, CollectError>(
                CollectError::MissingTimezone,
            ),
            list@.len() > 0 && region_time_zone is Some ==> (r matches Ok(c) && c.built_from(
                list@,
                region_time_zone->0,
            )),
    {
        if list.len() == 0 {
            return Err(CollectError::NoDataFound);
        }
        let timezone = match region_time_zone {
            Some(z) => z,
            None => {
                return Err(CollectError::MissingTimezone);
            },
        };
        let uid = Uid::parse(list[0].uid.as_str());
        let lang = list[0].lang;
        let ghost recs = list@;
        let mut items: Vec<HkrpgItem> = Vec::new();
        for rec in it: list
            invariant
                it.seq() == recs,
                items@ == HkrpgItem::items_of(recs.take(it.index() as int)),
        {
            proof {
                assert(recs.take(it.index() + 1).drop_last() =~= recs.take(it.index() as int));
            }
            match HkrpgItem::from_record(rec) {
                Ok(i) => items.push(i),
                Err(_) => {},
            }
        }
        proof {
            assert(recs.take(recs.len() as int) =~= recs);
        }
        Ok(Hkrpg { uid, timezone, lang: Some(lang), list: items })
    }
}

} // verus!
