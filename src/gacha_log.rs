//! Assembling title collections and documents from fetched categories.

use vstd::prelude::*;

use crate::game::{Family, GachaType, GameType};
use crate::hk4e::{Hk4e, Hk4eItem};
use crate::hkrpg::{Hkrpg, HkrpgItem};
use crate::nap::{Nap, NapItem};
use crate::record::{CollectError, GachaRecord};
use crate::response::ResponseData;
use crate::uigf::{UigfV4, UIGF_VERSION};

verus! {

/// The records of the categories that were fetched, concatenated in
/// category order; a failed category (`None`) contributes nothing.
pub open spec fn merged_records(logs: Seq<Option<ResponseData>>) -> Seq<GachaRecord>
    decreases logs.len(),
{
    if logs.len() == 0 {
        Seq::empty()
    } else {
        merged_records(logs.drop_last()) + match logs.last() {
            Some(d) => d.list@,
            None => Seq::empty(),
        }
    }
}

/// The time-zone offset of the response that holds the first merged record.
pub open spec fn first_zone(logs: Seq<Option<ResponseData>>) -> Option<i64>
    decreases logs.len(),
{
    if logs.len() == 0 {
        None
    } else {
        match logs[0] {
            Some(d) => if d.list@.len() > 0 {
                d.region_time_zone
            } else {
                first_zone(logs.drop_first())
            },
            None => first_zone(logs.drop_first()),
        }
    }
}

/// Whether `u` is the document of a family whose categories gave `logs`,
/// where at least one record came.
pub open spec fn family_document(family: Family, logs: Seq<Option<ResponseData>>, u: UigfV4) -> bool {
    let recs = merged_records(logs);
    match family {
        Family::Hk4e => u.hkrpg is None && u.nap is None && (u.hk4e matches Some(v) && v@.len() == 1
            && v@[0].built_from(recs, Hk4e::expected_zone(first_zone(logs), recs))),
        Family::Hkrpg => u.hk4e is None && u.nap is None && (u.hkrpg matches Some(v) && v@.len() == 1
            && v@[0].built_from(recs, first_zone(logs)->0)),
        Family::Nap => u.hk4e is None && u.hkrpg is None && (u.nap matches Some(v) && v@.len() == 1
            && v@[0].built_from(recs, first_zone(logs)->0)),
    }
}

/// Merges the fetched categories of one family, given in the family's
/// category order (`None` for a category whose fetch failed), into a
/// document with one collection. Account, language and time zone come from
/// the first merged record; records that do not normalize are left out.
pub fn merge_family_logs(game_type: GameType, logs: Vec<Option<ResponseData>>) -> (r: Result<UigfV4, CollectError>)
    ensures
        merged_records(logs@).len() == 0 ==> r == Err::<UigfV4, CollectError>(CollectError::NoDataFound),
        merged_records(logs@).len() > 0 ==> (if game_type.spec_family() != Family::Hk4e && first_zone(logs@) is None {
            r == Err::<UigfV4, CollectError>(CollectError::MissingTimezone)
        } else {
            r matches Ok(u) && family_document(game_type.spec_family(), logs@, u) && u.info.version@
                == UIGF_VERSION@
        }),
{
    let ghost all = logs@;
    let mut records: Vec<GachaRecord> = Vec::new();
    let mut zone: Option<i64> = None;
    let mut found = false;
    assert(all.subrange(0, all.len() as int) =~= all);
    for log in it: logs
        invariant
            it.seq() == all,
            records@ == merged_records(all.take(it.index() as int)),
            found <==> records@.len() > 0,
            found ==> zone == first_zone(all),
            !found ==> first_zone(all) == first_zone(all.subrange(it.index() as int, all.len() as int)),
    {
        let ghost i = it.index() as int;
        proof {
            assert(all.take(i + 1).drop_last() =~= all.take(i));
            assert(all.subrange(i, all.len() as int).drop_first() =~= all.subrange(i + 1, all.len() as int));
        }
        match log {
            Some(d) => {
                let ResponseData { page: _, size: _, list, region: _, region_time_zone } = d;
                if !found && list.len() > 0 {
                    zone = region_time_zone;
                    found = true;
                }
                let mut list = list;
                records.append(&mut list);
            },
            None => {},
        }
    }
    proof {
        assert(all.take(all.len() as int) =~= all);
    }
    match game_type.family() {
        Family::Hk4e => match Hk4e::from_records(records, zone) {
            Ok(c) => Ok(UigfV4::new_hk4e(vec![c])),
            Err(e) => Err(e),
        },
        Family::Hkrpg => match Hkrpg::from_records(records, zone) {
            Ok(c) => Ok(UigfV4::new_hkrpg(vec![c])),
            Err(e) => Err(e),
        },
        Family::Nap => match Nap::from_records(records, zone) {
            Ok(c) => Ok(UigfV4::new_nap(vec![c])),
            Err(e) => Err(e),
        },
    }
}

/// Whether `v` holds, in order, the collections of those responses of `logs`
/// that make one.
pub open spec fn hk4e_collections(v: Seq<Hk4e>, logs: Seq<ResponseData>) -> bool
    decreases logs.len(),
{
    if logs.len() == 0 {
        v.len() == 0
    } else {
        let d = logs.last();
        if d.list@.len() > 0 {
            v.len() > 0 && v.last().built_from(d.list@, Hk4e::expected_zone(d.region_time_zone, d.list@)) && hk4e_collections(
                v.drop_last(),
                logs.drop_last(),
            )
        } else {
            hk4e_collections(v, logs.drop_last())
        }
    }
}

fn collect_hk4e(logs: Vec<ResponseData>) -> (r: Vec<Hk4e>)
    ensures
        hk4e_collections(r@, logs@),
{
    let ghost all = logs@;
    let mut out: Vec<Hk4e> = Vec::new();
    for d in it: logs
        invariant
            it.seq() == all,
            hk4e_collections(out@, all.take(it.index() as int)),
    {
        let ghost i = it.index() as int;
        let ghost before = out@;
        proof {
            assert(all.take(i + 1).drop_last() =~= all.take(i));
        }
        match Hk4e::from_records(d.list, d.region_time_zone) {
            Ok(c) => {
                out.push(c);
                proof {
                    assert(out@.drop_last() =~= before);
                }
            },
            Err(_) => {},
        }
    }
    proof {
        assert(all.take(all.len() as int) =~= all);
    }
    out
}

/// Whether `v` holds, in order, the collections of those responses of `logs`
/// that make one.
pub open spec fn hkrpg_collections(v: Seq<Hkrpg>, logs: Seq<ResponseData>) -> bool
    decreases logs.len(),
{
    if logs.len() == 0 {
        v.len() == 0
    } else {
        let d = logs.last();
        if d.list@.len() > 0 && d.region_time_zone is Some {
            v.len() > 0 && v.last().built_from(d.list@, d.region_time_zone->0) && hkrpg_collections(
                v.drop_last(),
                logs.drop_last(),
            )
        } else {
            hkrpg_collections(v, logs.drop_last())
        }
    }
}

fn collect_hkrpg(logs: Vec<ResponseData>) -> (r: Vec<Hkrpg>)
    ensures
        hkrpg_collections(r@, logs@),
{
    let ghost all = logs@;
    let mut out: Vec<Hkrpg> = Vec::new();
    for d in it: logs
        invariant
            it.seq() == all,
            hkrpg_collections(out@, all.take(it.index() as int)),
    {
        let ghost i = it.index() as int;
        let ghost before = out@;
        proof {
            assert(all.take(i + 1).drop_last() =~= all.take(i));
        }
        match Hkrpg::from_records(d.list, d.region_time_zone) {
            Ok(c) => {
                out.push(c);
                proof {
                    assert(out@.drop_last() =~= before);
                }
            },
            Err(_) => {},
        }
    }
    proof {
        assert(all.take(all.len() as int) =~= all);
    }
    out
}

/// Whether `v` holds, in order, the collections of those responses of `logs`
/// that make one.
pub open spec fn nap_collections(v: Seq<Nap>, logs: Seq<ResponseData>) -> bool
    decreases logs.len(),
{
    if logs.len() == 0 {
        v.len() == 0
    } else {
        let d = logs.last();
        if d.list@.len() > 0 && d.region_time_zone is Some {
            v.len() > 0 && v.last().built_from(d.list@, d.region_time_zone->0) && nap_collections(
                v.drop_last(),
                logs.drop_last(),
            )
        } else {
            nap_collections(v, logs.drop_last())
        }
    }
}

fn collect_nap(logs: Vec<ResponseData>) -> (r: Vec<Nap>)
    ensures
        nap_collections(r@, logs@),
{
    let ghost all = logs@;
    let mut out: Vec<Nap> = Vec::new();
    for d in it: logs
        invariant
            it.seq() == all,
            nap_collections(out@, all.take(it.index() as int)),
    {
        let ghost i = it.index() as int;
        let ghost before = out@;
        proof {
            assert(all.take(i + 1).drop_last() =~= all.take(i));
        }
        match Nap::from_records(d.list, d.region_time_zone) {
            Ok(c) => {
                out.push(c);
                proof {
                    assert(out@.drop_last() =~= before);
                }
            },
            Err(_) => {},
        }
    }
    proof {
        assert(all.take(all.len() as int) =~= all);
    }
    out
}

/// Builds a document from responses of one category: each response that
/// makes a collection gives one, in order; the others are left out.
pub fn get_uigf_with_gacha_log(gacha_type: GachaType, gacha_log: Vec<ResponseData>) -> (r: UigfV4)
    ensures
        match gacha_type.spec_family() {
            Family::Hk4e => r.hkrpg is None && r.nap is None && (r.hk4e matches Some(v) && hk4e_collections(
                v@,
                gacha_log@,
            )),
            Family::Hkrpg => r.hk4e is None && r.nap is None && (r.hkrpg matches Some(v) && hkrpg_collections(
                v@,
                gacha_log@,
            )),
            Family::Nap => r.hk4e is None && r.hkrpg is None && (r.nap matches Some(v) && nap_collections(
                v@,
                gacha_log@,
            )),
        },
        r.info.version@ == UIGF_VERSION@,
{
    match gacha_type.family() {
        Family::Hk4e => UigfV4::new_hk4e(collect_hk4e(gacha_log)),
        Family::Hkrpg => UigfV4::new_hkrpg(collect_hkrpg(gacha_log)),
        Family::Nap => UigfV4::new_nap(collect_nap(gacha_log)),
    }
}

/// Whether category `i` of `logs` delivered no record (it failed, or came back empty).
pub open spec fn delivered_nothing(logs: Seq<Option<ResponseData>>, i: int) -> bool {
    logs[i] is None || logs[i]->0.list@.len() == 0
}

/// When no category delivered a record, there is nothing to merge, and the
/// merge ends in `NoDataFound`.
pub proof fn lemma_all_failed(logs: Seq<Option<ResponseData>>)
    requires
        forall|i: int| 0 <= i < logs.len() ==> delivered_nothing(logs, i),
    ensures
        merged_records(logs).len() == 0,
    decreases logs.len(),
{
    if logs.len() > 0 {
        let d = logs.drop_last();
        assert forall|i: int| 0 <= i < d.len() implies delivered_nothing(d, i) by {
            assert(delivered_nothing(logs, i));
        }
        assert(delivered_nothing(logs, logs.len() - 1));
        lemma_all_failed(d);
    }
}

proof fn lemma_zone_of_single(logs: Seq<Option<ResponseData>>, b: int)
    requires
        0 <= b < logs.len(),
        logs[b] matches Some(d) && d.list@.len() > 0,
        forall|i: int| 0 <= i < b ==> delivered_nothing(logs, i),
    ensures
        first_zone(logs) == logs[b]->0.region_time_zone,
    decreases b,
{
    if b > 0 {
        let d = logs.drop_first();
        assert(delivered_nothing(logs, 0));
        assert forall|i: int| 0 <= i < b - 1 implies delivered_nothing(d, i) by {
            assert(delivered_nothing(logs, i + 1));
        }
        lemma_zone_of_single(d, b - 1);
    }
}

/// A failed category costs only its own records: when every category but
/// `b` failed or came back empty, the merged records are exactly `b`'s, in
/// order, none from the others, and the time-zone offset is `b`'s. When all
/// of `b`'s records normalize, the collection holds one item per record.
pub proof fn lemma_partial_aggregation(logs: Seq<Option<ResponseData>>, b: int)
    requires
        0 <= b < logs.len(),
        logs[b] is Some,
        forall|i: int| 0 <= i < logs.len() && i != b ==> delivered_nothing(logs, i),
    ensures
        merged_records(logs) == logs[b]->0.list@,
        logs[b]->0.list@.len() > 0 ==> first_zone(logs) == logs[b]->0.region_time_zone,
        (forall|i: int| 0 <= i < logs[b]->0.list@.len() ==> (#[trigger] Hk4eItem::of_record(logs[b]->0.list@[i])) is Ok)
            ==> Hk4eItem::items_of(logs[b]->0.list@).len() == logs[b]->0.list@.len(),
        (forall|i: int| 0 <= i < logs[b]->0.list@.len() ==> (#[trigger] HkrpgItem::of_record(logs[b]->0.list@[i])) is Ok)
            ==> HkrpgItem::items_of(logs[b]->0.list@).len() == logs[b]->0.list@.len(),
        (forall|i: int| 0 <= i < logs[b]->0.list@.len() ==> (#[trigger] NapItem::of_record(logs[b]->0.list@[i])) is Ok)
            ==> NapItem::items_of(logs[b]->0.list@).len() == logs[b]->0.list@.len(),
    decreases logs.len(),
{
    let recs = logs[b]->0.list@;
    let d = logs.drop_last();
    if b == logs.len() - 1 {
        assert forall|i: int| 0 <= i < d.len() implies delivered_nothing(d, i) by {
            assert(delivered_nothing(logs, i));
        }
        lemma_all_failed(d);
        assert(merged_records(logs) =~= recs);
    } else {
        assert forall|i: int| 0 <= i < d.len() && i != b implies delivered_nothing(d, i) by {
            assert(delivered_nothing(logs, i));
        }
        lemma_partial_aggregation(d, b);
        assert(delivered_nothing(logs, logs.len() - 1));
        assert(merged_records(logs) =~= recs);
    }
    if recs.len() > 0 {
        assert forall|i: int| 0 <= i < b implies delivered_nothing(logs, i) by {}
        lemma_zone_of_single(logs, b);
    }
    if forall|i: int| 0 <= i < recs.len() ==> (#[trigger] Hk4eItem::of_record(recs[i])) is Ok {
        Hk4e::lemma_items_all(recs);
    }
    if forall|i: int| 0 <= i < recs.len() ==> (#[trigger] HkrpgItem::of_record(recs[i])) is Ok {
        Hkrpg::lemma_items_all(recs);
    }
    if forall|i: int| 0 <= i < recs.len() ==> (#[trigger] NapItem::of_record(recs[i])) is Ok {
        Nap::lemma_items_all(recs);
    }
}

} // verus!
