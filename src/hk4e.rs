//! Genshin Impact: categories, normalized items and the title collection.

use vstd::prelude::*;

use crate::record::{CollectError, GachaRecord, RecordError};
use crate::text::same_text;
use crate::uigf::{LanguageCode, Uid};

verus! {

/// Interchange category: vendor categories that share one pity counter
/// share one interchange category.
#[derive(Debug, Clone, Copy, PartialEq, Eq, Hash, Structural)]
pub enum UigfGachaType {
    PermanentWish,
    NoviceWishes,
    CharacterEventWish,
    WeaponEventWish,
    ChronicledWish,
}

impl UigfGachaType {
    pub open spec fn spec_code(self) -> Seq<char> {
        match self {
            UigfGachaType::PermanentWish => "100"@,
            UigfGachaType::NoviceWishes => "200"@,
            UigfGachaType::CharacterEventWish => "301"@,
            UigfGachaType::WeaponEventWish => "302"@,
            UigfGachaType::ChronicledWish => "500"@,
        }
    }

    /// The category code as the interchange format writes it.
    pub fn code(&self) -> (r: &'static str)
        ensures
            r@ == self.spec_code(),
    {
        match self {
            UigfGachaType::PermanentWish => "100",
            UigfGachaType::NoviceWishes => "200",
            UigfGachaType::CharacterEventWish => "301",
            UigfGachaType::WeaponEventWish => "302",
            UigfGachaType::ChronicledWish => "500",
        }
    }
}

/// Vendor category (banner kind).
#[derive(Debug, Clone, Copy, PartialEq, Eq, Hash, Structural)]
pub enum GachaType {
    PermanentWish,
    NoviceWishes,
    CharacterEventWish,
    WeaponEventWish,
    CharacterEventWish2,
    ChronicledWish,
}

impl GachaType {
    pub open spec fn spec_code(self) -> Seq<char> {
        match self {
            GachaType::PermanentWish => "100"@,
            GachaType::NoviceWishes => "200"@,
            GachaType::CharacterEventWish => "301"@,
            GachaType::WeaponEventWish => "302"@,
            GachaType::CharacterEventWish2 => "400"@,
            GachaType::ChronicledWish => "500"@,
        }
    }

    /// The category whose code is `s`, if any.
    pub open spec fn of_code(s: Seq<char>) -> Option<GachaType> {
        if s == "100"@ {
            Some(GachaType::PermanentWish)
        } else if s == "200"@ {
            Some(GachaType::NoviceWishes)
        } else if s == "301"@ {
            Some(GachaType::CharacterEventWish)
        } else if s == "302"@ {
            Some(GachaType::WeaponEventWish)
        } else if s == "400"@ {
            Some(GachaType::CharacterEventWish2)
        } else if s == "500"@ {
            Some(GachaType::ChronicledWish)
        } else {
            None
        }
    }

    /// The interchange category that this category counts towards.
    pub open spec fn spec_to_uigf(self) -> UigfGachaType {
        match self {
            GachaType::PermanentWish => UigfGachaType::PermanentWish,
            GachaType::NoviceWishes => UigfGachaType::NoviceWishes,
            GachaType::CharacterEventWish => UigfGachaType::CharacterEventWish,
            GachaType::WeaponEventWish => UigfGachaType::WeaponEventWish,
            GachaType::CharacterEventWish2 => UigfGachaType::CharacterEventWish,
            GachaType::ChronicledWish => UigfGachaType::ChronicledWish,
        }
    }

    /// The category code as the vendor API writes it.
    pub fn code(&self) -> (r: &'static str)
        ensures
            r@ == self.spec_code(),
    {
        match self {
            GachaType::PermanentWish => "100",
            GachaType::NoviceWishes => "200",
            GachaType::CharacterEventWish => "301",
            GachaType::WeaponEventWish => "302",
            GachaType::CharacterEventWish2 => "400",
            GachaType::ChronicledWish => "500",
        }
    }

    /// Reads a vendor category code.
    pub fn from_code(s: &str) -> (r: Option<GachaType>)
        ensures
            r == GachaType::of_code(s@),
    {
        if same_text(s, "100") {
            Some(GachaType::PermanentWish)
        } else if same_text(s, "200") {
            Some(GachaType::NoviceWishes)
        } else if same_text(s, "301") {
            Some(GachaType::CharacterEventWish)
        } else if same_text(s, "302") {
            Some(GachaType::WeaponEventWish)
        } else if same_text(s, "400") {
            Some(GachaType::CharacterEventWish2)
        } else if same_text(s, "500") {
            Some(GachaType::ChronicledWish)
        } else {
            None
        }
    }

    /// Reading a category's own code gives the category back.
    pub proof fn lemma_code_round_trip(self)
        ensures
            GachaType::of_code(self.spec_code()) == Some(self),
    {
        reveal_strlit("100");
        reveal_strlit("200");
        reveal_strlit("301");
        reveal_strlit("302");
        reveal_strlit("400");
        reveal_strlit("500");
        assert("100"@[0] != "200"@[0]);
        assert("100"@[0] != "301"@[0]);
        assert("100"@[0] != "302"@[0]);
        assert("100"@[0] != "400"@[0]);
        assert("100"@[0] != "500"@[0]);
        assert("200"@[0] != "301"@[0]);
        assert("200"@[0] != "302"@[0]);
        assert("200"@[0] != "400"@[0]);
        assert("200"@[0] != "500"@[0]);
        assert("301"@[2] != "302"@[2]);
        assert("301"@[0] != "400"@[0]);
        assert("301"@[0] != "500"@[0]);
        assert("302"@[0] != "400"@[0]);
        assert("302"@[0] != "500"@[0]);
        assert("400"@[0] != "500"@[0]);
    }

    /// Every category of the title, in the order they are fetched.
    pub fn all_variants() -> (r: Vec<GachaType>)
        ensures
            r@ == seq![
                GachaType::PermanentWish,
                GachaType::NoviceWishes,
                GachaType::CharacterEventWish,
                GachaType::WeaponEventWish,
                GachaType::CharacterEventWish2,
                GachaType::ChronicledWish,
            ],
    {
        vec![
            GachaType::PermanentWish,
            GachaType::NoviceWishes,
            GachaType::CharacterEventWish,
            GachaType::WeaponEventWish,
            GachaType::CharacterEventWish2,
            GachaType::ChronicledWish,
        ]
    }

    /// The interchange category that this category counts towards.
    pub fn to_uigf(&self) -> (r: UigfGachaType)
        ensures
            r == self.spec_to_uigf(),
    {
        match self {
            GachaType::PermanentWish => UigfGachaType::PermanentWish,
            GachaType::NoviceWishes => UigfGachaType::NoviceWishes,
            GachaType::CharacterEventWish => UigfGachaType::CharacterEventWish,
            GachaType::WeaponEventWish => UigfGachaType::WeaponEventWish,
            GachaType::CharacterEventWish2 => UigfGachaType::CharacterEventWish,
            GachaType::ChronicledWish => UigfGachaType::ChronicledWish,
        }
    }
}

/// One normalized Genshin Impact pull.
#[derive(Debug, Clone, PartialEq)]
pub struct Hk4eItem {
    pub uigf_gacha_type: UigfGachaType,
    pub gacha_type: GachaType,
    pub item_id: String,
    pub count: Option<String>,
    pub time: String,
    pub name: Option<String>,
    pub item_type: Option<String>,
    pub rank_type: Option<String>,
    pub id: String,
}

impl Hk4eItem {
    /// The normalized form of a raw record.
    pub open spec fn of_record(r: GachaRecord) -> Result<Hk4eItem, RecordError> {
        match GachaType::of_code(r.gacha_type@) {
            Some(t) => Ok(
                Hk4eItem {
                    uigf_gacha_type: t.spec_to_uigf(),
                    gacha_type: t,
                    item_id: r.item_id,
                    count: r.count,
                    time: r.time,
                    name: r.name,
                    item_type: r.item_type,
                    rank_type: r.rank_type,
                    id: r.id,
                },
            ),
            None => Err(RecordError::InvalidCategoryCode),
        }
    }

    /// Normalizes a raw record; fails on an unknown category code.
    pub fn from_record(r: GachaRecord) -> (res: Result<Hk4eItem, RecordError>)
        ensures
            res == Hk4eItem::of_record(r),
    {
        match GachaType::from_code(r.gacha_type.as_str()) {
            Some(t) => Ok(
                Hk4eItem {
                    uigf_gacha_type: t.to_uigf(),
                    gacha_type: t,
                    item_id: r.item_id,
                    count: r.count,
                    time: r.time,
                    name: r.name,
                    item_type: r.item_type,
                    rank_type: r.rank_type,
                    id: r.id,
                },
            ),
            None => Err(RecordError::InvalidCategoryCode),
        }
    }

    /// The normalized forms of the records that normalize, in order.
    pub open spec fn items_of(recs: Seq<GachaRecord>) -> Seq<Hk4eItem>
        decreases recs.len(),
    {
        if recs.len() == 0 {
            Seq::empty()
        } else {
            match Hk4eItem::of_record(recs.last()) {
                Ok(i) => Hk4eItem::items_of(recs.drop_last()).push(i),
                Err(_) => Hk4eItem::items_of(recs.drop_last()),
            }
        }
    }
}

/// The time-zone offset that an account id implies: the title's API gives
/// none, and the server region follows from the id's leading digit.
pub open spec fn zone_of_uid(uid: Seq<char>) -> i64 {
    if uid.len() > 0 && uid[0] == '6' {
        -5i64
    } else if uid.len() > 0 && uid[0] == '7' {
        1i64
    } else {
        8i64
    }
}

/// Infers the time-zone offset of an account from its id.
pub fn get_time_zone_by_uid(uid: &str) -> (r: i64)
    ensures
        r == zone_of_uid(uid@),
{
    if uid.unicode_len() == 0 {
        8
    } else {
        let c = uid.get_char(0);
        if c == '6' {
            -5
        } else if c == '7' {
            1
        } else {
            8
        }
    }
}

/// One account's Genshin Impact history.
#[derive(Debug, Clone, PartialEq)]
pub struct Hk4e {
    pub uid: Uid,
    pub timezone: i64,
    pub lang: Option<LanguageCode>,
    pub list: Vec<Hk4eItem>,
}

impl Hk4e {
    /// The offset a collection gets: the response's, else the one the
    /// first account id implies.
    pub open spec fn expected_zone(region_time_zone: Option<i64>, list: Seq<GachaRecord>) -> i64 {
        match region_time_zone {
            Some(z) => z,
            None => zone_of_uid(list[0].uid@),
        }
    }

    /// Whether `self` is the collection of the non-empty record list `list`
    /// with time-zone offset `zone`.
    pub open spec fn built_from(self, list: Seq<GachaRecord>, zone: i64) -> bool {
        &&& self.uid.reads(list[0].uid@)
        &&& self.lang == Some(list[0].lang)
        &&& self.timezone == zone
        &&& self.list@ == Hk4eItem::items_of(list)
    }

    /// When every record normalizes, the collection has one item per record.
    pub proof fn lemma_items_all(recs: Seq<GachaRecord>)
        requires
            forall|i: int| 0 <= i < recs.len() ==> (#[trigger] Hk4eItem::of_record(recs[i])) is Ok,
        ensures
            Hk4eItem::items_of(recs).len() == recs.len(),
        decreases recs.len(),
    {
        if recs.len() > 0 {
            assert(Hk4eItem::of_record(recs[recs.len() - 1]) is Ok);
            Hk4e::lemma_items_all(recs.drop_last());
        }
    }

    /// Builds the collection from merged records: account, language and
    /// (absent a given offset) time zone come from the first record; records
    /// that do not normalize are left out.
    pub fn from_records(list: Vec<GachaRecord>, region_time_zone: Option<i64>) -> (r: Result<Hk4e, CollectError>)
        ensures
            list@.len() == 0 ==> r == Err::<Hk4e, CollectError>(CollectError::NoDataFound),
            list@.len() > 0 ==> (r matches Ok(c) && c.built_from(
                list@,
                Hk4e::expected_zone(region_time_zone, list@),
            )),
    {
        if list.len() == 0 {
            return Err(CollectError::NoDataFound);
        }
        let uid = Uid::parse(list[0].uid.as_str());
        let lang = list[0].lang;
        let timezone = match region_time_zone {
            Some(z) => z,
            None => get_time_zone_by_uid(list[0].uid.as_str()),
        };
        let ghost recs = list@;
        let mut items: Vec<Hk4eItem> = Vec::new();
        for rec in it: list
            invariant
                it.seq() == recs,
                items@ == Hk4eItem::items_of(recs.take(it.index() as int)),
        {
            proof {
                assert(recs.take(it.index() + 1).drop_last() =~= recs.take(it.index() as int));
            }
            match Hk4eItem::from_record(rec) {
                Ok(i) => items.push(i),
                Err(_) => {},
            }
        }
        proof {
            assert(recs.take(recs.len() as int) =~= recs);
        }
        Ok(Hk4e { uid, timezone, lang: Some(lang), list: items })
    }
}

} // verus!
