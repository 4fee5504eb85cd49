//! Engine-level laws: properties of whole engine runs.
//!
//! The lemmas here are stated over the spec-level engine of
//! [`crate::apply`] and the decoder of [`crate::decoder`], and are what the
//! library claims of itself beyond the per-function contracts: stored keys
//! stay trimmed, permanent schedules stay single, and a well-formed bundle
//! yields a journey that opens at an origin and closes at a terminus.

use vstd::prelude::*;

use crate::apply::{
    apply_bs, apply_bundle, apply_single, lemma_bundle_err_persists, run_engine,
    schedule_of_bundle, submits,
};
use crate::decoder::decode_record;
use crate::errors::ApplyErrorView;
use crate::records::RecordView;
use crate::schedule::{
    append_schedule, append_schedule_if_present, empty_schedule, JourneyLocationView,
    lemma_schedule_index_of, lemma_tiploc_index_of, remove_schedules, remove_tiploc, schedule_wf,
    schedule_index_of, tiploc_index_of, tiploc_wf, upsert_tiploc, DatabaseView, ScheduleListView,
    ScheduleView, TiplocView,
};
use crate::text::{is_trimmed, lemma_trim_spaces_shape, trim_spaces};

verus! {

/// The field sizes the decoder guarantees for the fields the engine keys
/// and stores: TIPLOC codes are seven bytes, CRS codes three, train UIDs
/// six, and location fields eight.
pub open spec fn record_sized(r: RecordView) -> bool {
    match r {
        RecordView::TIPLOCInsert { tiploc, three_alpha_code, tps_description, .. } => tiploc.len()
            <= 7 && three_alpha_code.len() <= 3 && tps_description.len() <= 26,
        RecordView::TIPLOCAmend { tiploc, three_alpha_code, tps_description, new_tiploc, .. } =>
            tiploc.len() <= 7 && three_alpha_code.len() <= 3 && tps_description.len() <= 26
            && new_tiploc.len() <= 7,
        RecordView::TIPLOCDelete { tiploc } => tiploc.len() <= 7,
        RecordView::BasicSchedule { train_uid, .. } => train_uid.len() <= 6,
        RecordView::LocationOrigin { location, .. } => location.len() <= 8,
        RecordView::LocationIntermediate { location, .. } => location.len() <= 8,
        RecordView::LocationTerminate { location, .. } => location.len() <= 8,
        _ => true,
    }
}

/// Every record the decoder produces has the sizes `record_sized` asks.
pub proof fn lemma_decode_record_sized(row: Seq<u8>, rv: RecordView)
    requires
        decode_record(row) == Ok::<RecordView, crate::decoder::CIFRecordParseError>(rv),
    ensures
        record_sized(rv),
{
}

/// A trimmed field of a sized source is trimmed and no longer than it.
proof fn lemma_trim_within(s: Seq<u8>, n: int)
    requires
        s.len() <= n,
    ensures
        is_trimmed(trim_spaces(s)),
        trim_spaces(s).len() <= n,
{
    lemma_trim_spaces_shape(s);
}

/// Storing a well-formed TIPLOC keeps the list's keys unique and its
/// entries well formed.
proof fn lemma_upsert_tiploc_wf(s: Seq<TiplocView>, t: TiplocView)
    requires
        forall|i: int, j: int| 0 <= i < j < s.len() ==> s[i].tiploc != s[j].tiploc,
        forall|i: int| 0 <= i < s.len() ==> tiploc_wf(#[trigger] s[i]),
        tiploc_wf(t),
    ensures
        forall|i: int, j: int|
            0 <= i < j < upsert_tiploc(s, t).len() ==> upsert_tiploc(s, t)[i].tiploc
                != upsert_tiploc(s, t)[j].tiploc,
        forall|i: int|
            0 <= i < upsert_tiploc(s, t).len() ==> tiploc_wf(#[trigger] upsert_tiploc(s, t)[i]),
{
    lemma_tiploc_index_of(s, t.tiploc);
    let k = tiploc_index_of(s, t.tiploc);
    if k >= 0 {
        assert(forall|i: int|
            0 <= i < s.len() && i != k ==> upsert_tiploc(s, t)[i] == s[i]);
        assert forall|i: int, j: int|
            0 <= i < j < upsert_tiploc(s, t).len() implies upsert_tiploc(s, t)[i].tiploc
            != upsert_tiploc(s, t)[j].tiploc by {
            if i == k {
                assert(s[j].tiploc != s[k].tiploc);
            } else if j == k {
                assert(s[i].tiploc != s[k].tiploc);
            }
        }
    }
}

/// Removing a key keeps the list's keys unique and its entries well
/// formed.
proof fn lemma_remove_tiploc_wf(s: Seq<TiplocView>, key: Seq<u8>)
    requires
        forall|i: int, j: int| 0 <= i < j < s.len() ==> s[i].tiploc != s[j].tiploc,
        forall|i: int| 0 <= i < s.len() ==> tiploc_wf(#[trigger] s[i]),
    ensures
        forall|i: int, j: int|
            0 <= i < j < remove_tiploc(s, key).len() ==> remove_tiploc(s, key)[i].tiploc
                != remove_tiploc(s, key)[j].tiploc,
        forall|i: int|
            0 <= i < remove_tiploc(s, key).len() ==> tiploc_wf(
                #[trigger] remove_tiploc(s, key)[i],
            ),
{
    lemma_tiploc_index_of(s, key);
}

/// Keys of the schedule lists stay unique, trimmed and consistent with
/// their entries after an append, and every entry stays well formed.
proof fn lemma_append_schedule_wf(s: Seq<ScheduleListView>, uid: Seq<u8>, sch: ScheduleView)
    requires
        forall|i: int, j: int| 0 <= i < j < s.len() ==> s[i].train_uid != s[j].train_uid,
        forall|i: int|
            0 <= i < s.len() ==> is_trimmed((#[trigger] s[i]).train_uid) && s[i].train_uid.len()
                <= 6,
        forall|i: int, j: int|
            0 <= i < s.len() && 0 <= j < s[i].schedules.len() ==> schedule_wf(
                #[trigger] s[i].schedules[j],
            ) && s[i].schedules[j].train_uid == s[i].train_uid,
        schedule_wf(sch),
        sch.train_uid == uid,
    ensures
        forall|i: int, j: int|
            0 <= i < j < append_schedule(s, uid, sch).len() ==> append_schedule(
                s,
                uid,
                sch,
            )[i].train_uid != append_schedule(s, uid, sch)[j].train_uid,
        forall|i: int|
            0 <= i < append_schedule(s, uid, sch).len() ==> is_trimmed(
                (#[trigger] append_schedule(s, uid, sch)[i]).train_uid,
            ) && append_schedule(s, uid, sch)[i].train_uid.len() <= 6,
        forall|i: int, j: int|
            0 <= i < append_schedule(s, uid, sch).len() && 0 <= j < append_schedule(
                s,
                uid,
                sch,
            )[i].schedules.len() ==> schedule_wf(#[trigger] append_schedule(s, uid, sch)[i].schedules[j])
                && append_schedule(s, uid, sch)[i].schedules[j].train_uid == append_schedule(
                s,
                uid,
                sch,
            )[i].train_uid,
{
    lemma_schedule_index_of(s, uid);
    let k = schedule_index_of(s, uid);
    let out = append_schedule(s, uid, sch);
    if k >= 0 {
        assert forall|i: int, j: int|
            0 <= i < out.len() && 0 <= j < out[i].schedules.len() implies schedule_wf(
            #[trigger] out[i].schedules[j],
        ) && out[i].schedules[j].train_uid == out[i].train_uid by {
            if i == k {
                if j < s[k].schedules.len() {
                    assert(out[i].schedules[j] == s[k].schedules[j]);
                } else {
                    assert(out[i].schedules[j] == sch);
                }
            } else {
                assert(out[i] == s[i]);
            }
        }
        assert forall|i: int, j: int|
            0 <= i < j < out.len() implies out[i].train_uid != out[j].train_uid by {
            if i == k {
                assert(s[j].train_uid != s[k].train_uid);
            } else if j == k {
                assert(s[i].train_uid != s[k].train_uid);
            }
        }
    } else {
        assert forall|i: int, j: int|
            0 <= i < out.len() && 0 <= j < out[i].schedules.len() implies schedule_wf(
            #[trigger] out[i].schedules[j],
        ) && out[i].schedules[j].train_uid == out[i].train_uid by {
            if i < s.len() {
                assert(out[i] == s[i]);
            } else {
                assert(out[i].schedules == seq![sch]);
                assert(out[i].schedules[0] == sch);
            }
        }
        assert forall|i: int, j: int|
            0 <= i < j < out.len() implies out[i].train_uid != out[j].train_uid by {
            if j == s.len() {
                assert(s[i].train_uid != uid);
            }
        }
    }
}

/// As `lemma_append_schedule_wf`, for the append that requires the key to
/// exist.
proof fn lemma_append_schedule_if_present_wf(
    s: Seq<ScheduleListView>,
    uid: Seq<u8>,
    sch: ScheduleView,
)
    requires
        forall|i: int, j: int| 0 <= i < j < s.len() ==> s[i].train_uid != s[j].train_uid,
        forall|i: int|
            0 <= i < s.len() ==> is_trimmed((#[trigger] s[i]).train_uid) && s[i].train_uid.len()
                <= 6,
        forall|i: int, j: int|
            0 <= i < s.len() && 0 <= j < s[i].schedules.len() ==> schedule_wf(
                #[trigger] s[i].schedules[j],
            ) && s[i].schedules[j].train_uid == s[i].train_uid,
        schedule_wf(sch),
        sch.train_uid == uid,
    ensures
        forall|i: int, j: int|
            0 <= i < j < append_schedule_if_present(s, uid, sch).len()
                ==> append_schedule_if_present(s, uid, sch)[i].train_uid
                != append_schedule_if_present(s, uid, sch)[j].train_uid,
        forall|i: int|
            0 <= i < append_schedule_if_present(s, uid, sch).len() ==> is_trimmed(
                (#[trigger] append_schedule_if_present(s, uid, sch)[i]).train_uid,
            ) && append_schedule_if_present(s, uid, sch)[i].train_uid.len() <= 6,
        forall|i: int, j: int|
            0 <= i < append_schedule_if_present(s, uid, sch).len() && 0 <= j
                < append_schedule_if_present(s, uid, sch)[i].schedules.len() ==> schedule_wf(
                #[trigger] append_schedule_if_present(s, uid, sch)[i].schedules[j],
            ) && append_schedule_if_present(s, uid, sch)[i].schedules[j].train_uid
                == append_schedule_if_present(s, uid, sch)[i].train_uid,
{
    lemma_schedule_index_of(s, uid);
    let k = schedule_index_of(s, uid);
    let out = append_schedule_if_present(s, uid, sch);
    if k >= 0 {
        assert(out == append_schedule(s, uid, sch));
        lemma_append_schedule_wf(s, uid, sch);
    }
}

/// Removing a train UID keeps the schedule lists well formed.
proof fn lemma_remove_schedules_wf(s: Seq<ScheduleListView>, uid: Seq<u8>)
    requires
        forall|i: int, j: int| 0 <= i < j < s.len() ==> s[i].train_uid != s[j].train_uid,
        forall|i: int|
            0 <= i < s.len() ==> is_trimmed((#[trigger] s[i]).train_uid) && s[i].train_uid.len()
                <= 6,
        forall|i: int, j: int|
            0 <= i < s.len() && 0 <= j < s[i].schedules.len() ==> schedule_wf(
                #[trigger] s[i].schedules[j],
            ) && s[i].schedules[j].train_uid == s[i].train_uid,
    ensures
        forall|i: int, j: int|
            0 <= i < j < remove_schedules(s, uid).len() ==> remove_schedules(s, uid)[i].train_uid
                != remove_schedules(s, uid)[j].train_uid,
        forall|i: int|
            0 <= i < remove_schedules(s, uid).len() ==> is_trimmed(
                (#[trigger] remove_schedules(s, uid)[i]).train_uid,
            ) && remove_schedules(s, uid)[i].train_uid.len() <= 6,
        forall|i: int, j: int|
            0 <= i < remove_schedules(s, uid).len() && 0 <= j < remove_schedules(
                s,
                uid,
            )[i].schedules.len() ==> schedule_wf(
                #[trigger] remove_schedules(s, uid)[i].schedules[j],
            ) && remove_schedules(s, uid)[i].schedules[j].train_uid == remove_schedules(
                s,
                uid,
            )[i].train_uid,
{
    lemma_schedule_index_of(s, uid);
}

/// What a basic schedule record leaves in the schedule it fills: its own
/// trimmed UID and its own STP indicator, with the journey untouched.
pub proof fn lemma_apply_bs_shape(sch: ScheduleView, r: RecordView, out: ScheduleView)
    requires
        r is BasicSchedule,
        apply_bs(sch, r) == Ok::<ScheduleView, ApplyErrorView>(out),
    ensures
        out.train_uid == trim_spaces(r->BasicSchedule_train_uid),
        Some(out.stp_indicator) == crate::codes::stp_indicator_of(r->BasicSchedule_stp_indicator),
        out.journey == sch.journey,
{
}

/// What a whole bundle fold leaves of the UID, STP indicator and journey
/// well-formedness. `last_bs` is the bundle's last basic schedule record,
/// which is the one whose UID and STP indicator survive the fold.
pub open spec fn last_bs(bundle: Seq<RecordView>) -> Option<RecordView>
    decreases bundle.len(),
{
    if bundle.len() == 0 {
        None
    } else if bundle.last() is BasicSchedule {
        Some(bundle.last())
    } else {
        last_bs(bundle.drop_last())
    }
}

/// A bundle's schedule takes its UID and STP indicator from the bundle's
/// last basic schedule record, or keeps the empty schedule's when there
/// is none.
pub proof fn lemma_schedule_of_bundle_uid(bundle: Seq<RecordView>, out: ScheduleView)
    requires
        schedule_of_bundle(bundle) == Ok::<ScheduleView, ApplyErrorView>(out),
    ensures
        match last_bs(bundle) {
            Some(r) => out.train_uid == trim_spaces(r->BasicSchedule_train_uid) && Some(
                out.stp_indicator,
            ) == crate::codes::stp_indicator_of(r->BasicSchedule_stp_indicator),
            None => out.train_uid == Seq::<u8>::empty() && out.stp_indicator
                == crate::codes::STPIndicator::PermanentAssociation,
        },
    decreases bundle.len(),
{
    if bundle.len() > 0 {
        let prev = schedule_of_bundle(bundle.drop_last());
        let s = prev->Ok_0;
        lemma_schedule_of_bundle_uid(bundle.drop_last(), s);
        let r = bundle.last();
        match r {
            RecordView::BasicSchedule { .. } => {
                lemma_apply_bs_shape(s, r, out);
            },
            _ => {},
        }
    }
}

/// The journey a bundle builds is trimmed, within the location bound `m`
/// that every location record of the bundle observes.
pub proof fn lemma_schedule_of_bundle_journey(bundle: Seq<RecordView>, out: ScheduleView, m: int)
    requires
        schedule_of_bundle(bundle) == Ok::<ScheduleView, ApplyErrorView>(out),
        forall|k: int|
            0 <= k < bundle.len() ==> location_len_within(#[trigger] bundle[k], m),
    ensures
        forall|j: int|
            0 <= j < out.journey.len() ==> is_trimmed((#[trigger] out.journey[j]).tiploc)
                && out.journey[j].tiploc.len() <= m,
    decreases bundle.len(),
{
    if bundle.len() > 0 {
        let prev = schedule_of_bundle(bundle.drop_last());
        let s = prev->Ok_0;
        lemma_schedule_of_bundle_journey(bundle.drop_last(), s, m);
        let r = bundle.last();
        match r {
            RecordView::BasicSchedule { .. } => {
                lemma_apply_bs_shape(s, r, out);
            },
            RecordView::LocationOrigin { location, .. } => {
                lemma_trim_within(location, m);
            },
            RecordView::LocationIntermediate { location, .. } => {
                lemma_trim_within(location, m);
            },
            RecordView::LocationTerminate { location, .. } => {
                lemma_trim_within(location, m);
            },
            _ => {},
        }
    }
}

/// The location bound a record observes: for a location record, that its
/// field fits in `m` bytes; any other record observes every bound.
pub open spec fn location_len_within(r: RecordView, m: int) -> bool {
    match r {
        RecordView::LocationOrigin { location, .. } => location.len() <= m,
        RecordView::LocationIntermediate { location, .. } => location.len() <= m,
        RecordView::LocationTerminate { location, .. } => location.len() <= m,
        _ => true,
    }
}

/// A sized record's location field fits in eight bytes.
proof fn lemma_sized_location_within(r: RecordView)
    requires
        record_sized(r),
    ensures
        location_len_within(r, 8),
{
}

/// A bundle of sized records yields a well-formed schedule.
proof fn lemma_schedule_of_bundle_wf(bundle: Seq<RecordView>, out: ScheduleView)
    requires
        schedule_of_bundle(bundle) == Ok::<ScheduleView, ApplyErrorView>(out),
        forall|k: int| 0 <= k < bundle.len() ==> record_sized(#[trigger] bundle[k]),
    ensures
        schedule_wf(out),
{
    assert forall|k: int| 0 <= k < bundle.len() implies location_len_within(
        #[trigger] bundle[k],
        8,
    ) by {
        lemma_sized_location_within(bundle[k]);
    }
    lemma_schedule_of_bundle_uid(bundle, out);
    lemma_schedule_of_bundle_journey(bundle, out, 8);
    match last_bs(bundle) {
        Some(r) => {
            lemma_last_bs_sized(bundle, r);
            lemma_trim_within(r->BasicSchedule_train_uid, 6);
        },
        None => {},
    }
}

/// The last basic schedule record of a bundle of sized records is sized.
proof fn lemma_last_bs_sized(bundle: Seq<RecordView>, r: RecordView)
    requires
        forall|k: int| 0 <= k < bundle.len() ==> record_sized(#[trigger] bundle[k]),
        last_bs(bundle) == Some(r),
    ensures
        record_sized(r),
        exists|k: int| 0 <= k < bundle.len() && bundle[k] == r && r is BasicSchedule,
    decreases bundle.len(),
{
    if bundle.len() > 0 {
        if bundle.last() is BasicSchedule {
            assert(bundle[bundle.len() - 1] == r);
        } else {
            lemma_last_bs_sized(bundle.drop_last(), r);
            let k = choose|k: int|
                0 <= k < bundle.drop_last().len() && bundle.drop_last()[k] == r
                    && r is BasicSchedule;
            assert(bundle[k] == r);
        }
    }
}

/// One singleton record keeps the database well formed.
proof fn lemma_apply_single_wf(db: DatabaseView, r: RecordView)
    requires
        db.wf(),
        record_sized(r),
    ensures
        apply_single(db, r).0.wf(),
{
    match r {
        RecordView::TIPLOCInsert { tiploc, tps_description, three_alpha_code, .. } => {
            lemma_trim_within(tiploc, 7);
            lemma_trim_within(three_alpha_code, 3);
            lemma_trim_within(tps_description, 26);
            lemma_upsert_tiploc_wf(
                db.tiplocs,
                TiplocView {
                    tiploc: trim_spaces(tiploc),
                    three_alpha_code: trim_spaces(three_alpha_code),
                    description: trim_spaces(tps_description),
                },
            );
        },
        RecordView::TIPLOCAmend { tiploc, tps_description, three_alpha_code, new_tiploc, .. } => {
            lemma_trim_within(tiploc, 7);
            lemma_trim_within(new_tiploc, 7);
            lemma_trim_within(three_alpha_code, 3);
            lemma_trim_within(tps_description, 26);
            let renamed = trim_spaces(new_tiploc);
            if renamed.len() == 0 {
                lemma_upsert_tiploc_wf(
                    db.tiplocs,
                    TiplocView {
                        tiploc: trim_spaces(tiploc),
                        three_alpha_code: trim_spaces(three_alpha_code),
                        description: trim_spaces(tps_description),
                    },
                );
            } else {
                lemma_remove_tiploc_wf(db.tiplocs, trim_spaces(tiploc));
                lemma_upsert_tiploc_wf(
                    remove_tiploc(db.tiplocs, trim_spaces(tiploc)),
                    TiplocView {
                        tiploc: renamed,
                        three_alpha_code: trim_spaces(three_alpha_code),
                        description: trim_spaces(tps_description),
                    },
                );
            }
        },
        RecordView::TIPLOCDelete { tiploc } => {
            lemma_remove_tiploc_wf(db.tiplocs, trim_spaces(tiploc));
        },
        RecordView::BasicSchedule { transaction_type, train_uid, .. } => {
            if transaction_type == crate::text::D {
                lemma_remove_schedules_wf(db.schedules, trim_spaces(train_uid));
            } else {
                match apply_bs(empty_schedule(), r) {
                    Err(_) => {},
                    Ok(s) => {
                        lemma_apply_bs_shape(empty_schedule(), r, s);
                        lemma_trim_within(train_uid, 6);
                        lemma_append_schedule_if_present_wf(db.schedules, s.train_uid, s);
                    },
                }
            }
        },
        _ => {},
    }
}

/// One bundle keeps the database well formed.
proof fn lemma_apply_bundle_wf(db: DatabaseView, bundle: Seq<RecordView>)
    requires
        db.wf(),
        forall|k: int| 0 <= k < bundle.len() ==> record_sized(#[trigger] bundle[k]),
    ensures
        apply_bundle(db, bundle).0.wf(),
{
    match schedule_of_bundle(bundle) {
        Err(_) => {},
        Ok(s) => {
            lemma_schedule_of_bundle_wf(bundle, s);
            lemma_append_schedule_wf(db.schedules, s.train_uid, s);
        },
    }
}

/// Keys unique and trimmed, entries well formed: the whole engine run
/// preserves database well-formedness over any stream of sized records.
/// In particular every stored TIPLOC code is at most seven bytes with no
/// edge spaces, and every stored journey location is trimmed.
pub proof fn lemma_run_engine_wf(db0: DatabaseView, records: Seq<RecordView>, n: int)
    requires
        db0.wf(),
        forall|k: int| 0 <= k < records.len() ==> record_sized(#[trigger] records[k]),
        n <= records.len(),
    ensures
        run_engine(db0, records, n).db.wf(),
        0 <= run_engine(db0, records, n).bundle_start <= n || n < 0,
    decreases n,
{
    if n > 0 {
        lemma_run_engine_wf(db0, records, n - 1);
        let st = run_engine(db0, records, n - 1);
        let r = records[n - 1];
        if submits(r) {
            if st.bundle_start == n - 1 {
                lemma_apply_single_wf(st.db, r);
            } else {
                let bundle = records.subrange(st.bundle_start, n);
                assert(forall|k: int|
                    0 <= k < bundle.len() ==> record_sized(#[trigger] bundle[k]));
                lemma_apply_bundle_wf(st.db, bundle);
            }
        }
    }
}

/// Where a well-formed bundle's origin record stands: right after the
/// basic schedule record, or one later when an extended record follows
/// it.
pub open spec fn origin_at(b: Seq<RecordView>) -> int {
    if b.len() >= 2 && b[1] is BasicScheduleExtended {
        2
    } else {
        1
    }
}

/// A bundle of the shape the format intends: a basic schedule record, an
/// optional extended record, exactly one origin, intermediate or
/// change-en-route records, and a terminating record last.
pub open spec fn well_formed_bundle(b: Seq<RecordView>) -> bool {
    &&& b.len() >= 3
    &&& b[0] is BasicSchedule
    &&& origin_at(b) < b.len() - 1
    &&& b[origin_at(b)] is LocationOrigin
    &&& forall|k: int|
        origin_at(b) < k < b.len() - 1 ==> (#[trigger] b[k]) is LocationIntermediate
            || b[k] is ChangeEnRoute
    &&& b.last() is LocationTerminate
}

/// A prefix of basic schedule and extended records builds no journey.
proof fn lemma_bundle_head_journey_empty(b: Seq<RecordView>, m: int, out: ScheduleView)
    requires
        0 <= m <= b.len(),
        forall|k: int|
            0 <= k < m ==> (#[trigger] b[k]) is BasicSchedule || b[k] is BasicScheduleExtended,
        schedule_of_bundle(b.take(m)) == Ok::<ScheduleView, ApplyErrorView>(out),
    ensures
        out.journey == Seq::<JourneyLocationView>::empty(),
    decreases m,
{
    if m == 0 {
        assert(b.take(0) =~= Seq::<RecordView>::empty());
    } else {
        assert(b.take(m).drop_last() =~= b.take(m - 1));
        let prev = schedule_of_bundle(b.take(m - 1));
        if prev is Err {
            lemma_bundle_err_persists(b.take(m), m - 1);
            assert(b.take(m).take(m - 1) =~= b.take(m - 1));
            assert(false);
        }
        let s = prev->Ok_0;
        lemma_bundle_head_journey_empty(b, m - 1, s);
        if b[m - 1] is BasicSchedule {
            lemma_apply_bs_shape(s, b[m - 1], out);
        }
    }
}

/// After the origin record of a well-formed bundle, the journey under
/// construction keeps at least one call and its first call is an
/// origin's: no arrival, a departure.
proof fn lemma_bundle_journey_prefix(b: Seq<RecordView>, m: int, out: ScheduleView)
    requires
        well_formed_bundle(b),
        origin_at(b) < m <= b.len(),
        schedule_of_bundle(b.take(m)) == Ok::<ScheduleView, ApplyErrorView>(out),
    ensures
        out.journey.len() >= 1,
        out.journey[0].arrival_time is None,
        out.journey[0].departure_time is Some,
    decreases m,
{
    let j = origin_at(b);
    assert(b.take(m).drop_last() =~= b.take(m - 1));
    let prev = schedule_of_bundle(b.take(m - 1));
    if prev is Err {
        lemma_bundle_err_persists(b.take(m), m - 1);
        assert(b.take(m).take(m - 1) =~= b.take(m - 1));
        assert(false);
    }
    let s = prev->Ok_0;
    if m - 1 == j {
        lemma_bundle_head_journey_empty(b, m - 1, s);
        assert(b[m - 1] is LocationOrigin);
        assert(out.journey.len() == 1);
    } else {
        lemma_bundle_journey_prefix(b, m - 1, s);
        assert(b[m - 1] is LocationIntermediate || b[m - 1] is ChangeEnRoute || b[m - 1]
            is LocationTerminate);
        assert(out.journey[0] == s.journey[0]);
    }
}

/// Bundle closure: the schedule a well-formed bundle builds opens with an
/// origin call (no arrival, a departure) and closes with a terminating
/// call (an arrival, no departure).
pub proof fn lemma_bundle_closure(b: Seq<RecordView>, out: ScheduleView)
    requires
        well_formed_bundle(b),
        schedule_of_bundle(b) == Ok::<ScheduleView, ApplyErrorView>(out),
    ensures
        out.journey.len() >= 2,
        out.journey[0].arrival_time is None,
        out.journey[0].departure_time is Some,
        out.journey.last().arrival_time is Some,
        out.journey.last().departure_time is None,
{
    let n = b.len() as int;
    assert(b.take(n) =~= b);
    assert(b.take(n).drop_last() =~= b.take(n - 1));
    let prev = schedule_of_bundle(b.take(n - 1));
    if prev is Err {
        lemma_bundle_err_persists(b.take(n), n - 1);
        assert(b.take(n).take(n - 1) =~= b.take(n - 1));
        assert(false);
    }
    let s = prev->Ok_0;
    lemma_bundle_journey_prefix(b, n - 1, s);
    assert(b.last() is LocationTerminate);
    assert(out.journey.len() == s.journey.len() + 1);
    assert(out.journey[0] == s.journey[0]);
}


/// How many schedules in one UID's list are that UID's permanent entry.
pub open spec fn count_perm_list(l: Seq<ScheduleView>, uid: Seq<u8>) -> int
    decreases l.len(),
{
    if l.len() == 0 {
        0
    } else {
        count_perm_list(l.drop_last(), uid) + (if l.last().train_uid == uid
            && l.last().stp_indicator == crate::codes::STPIndicator::PermanentAssociation {
            1int
        } else {
            0int
        })
    }
}

/// How many stored schedules, across all lists, are permanent schedules
/// of the given UID, counted by each schedule's own UID field.
pub open spec fn count_perm_db(s: Seq<ScheduleListView>, uid: Seq<u8>) -> int
    decreases s.len(),
{
    if s.len() == 0 {
        0
    } else {
        count_perm_db(s.drop_last(), uid) + count_perm_list(s.last().schedules, uid)
    }
}

proof fn lemma_count_perm_list_nonneg(l: Seq<ScheduleView>, uid: Seq<u8>)
    ensures
        count_perm_list(l, uid) >= 0,
    decreases l.len(),
{
    if l.len() > 0 {
        lemma_count_perm_list_nonneg(l.drop_last(), uid);
    }
}

proof fn lemma_count_perm_db_nonneg(s: Seq<ScheduleListView>, uid: Seq<u8>)
    ensures
        count_perm_db(s, uid) >= 0,
    decreases s.len(),
{
    if s.len() > 0 {
        lemma_count_perm_db_nonneg(s.drop_last(), uid);
        lemma_count_perm_list_nonneg(s.last().schedules, uid);
    }
}

proof fn lemma_count_perm_db_update(
    s: Seq<ScheduleListView>,
    i: int,
    entry: ScheduleListView,
    uid: Seq<u8>,
)
    requires
        0 <= i < s.len(),
    ensures
        count_perm_db(s.update(i, entry), uid) == count_perm_db(s, uid) - count_perm_list(
            s[i].schedules,
            uid,
        ) + count_perm_list(entry.schedules, uid),
    decreases s.len(),
{
    if i == s.len() - 1 {
        assert(s.update(i, entry).drop_last() =~= s.drop_last());
    } else {
        assert(s.update(i, entry).drop_last() =~= s.drop_last().update(i, entry));
        lemma_count_perm_db_update(s.drop_last(), i, entry, uid);
    }
}

proof fn lemma_count_perm_db_push(s: Seq<ScheduleListView>, entry: ScheduleListView, uid: Seq<u8>)
    ensures
        count_perm_db(s.push(entry), uid) == count_perm_db(s, uid) + count_perm_list(
            entry.schedules,
            uid,
        ),
{
    assert(s.push(entry).drop_last() =~= s);
}

proof fn lemma_count_perm_db_remove(s: Seq<ScheduleListView>, i: int, uid: Seq<u8>)
    requires
        0 <= i < s.len(),
    ensures
        count_perm_db(s.remove(i), uid) == count_perm_db(s, uid) - count_perm_list(
            s[i].schedules,
            uid,
        ),
    decreases s.len(),
{
    if i == s.len() - 1 {
        assert(s.remove(i) =~= s.drop_last());
    } else {
        assert(s.remove(i).drop_last() =~= s.drop_last().remove(i));
        assert(s.remove(i).last() == s.last());
        lemma_count_perm_db_remove(s.drop_last(), i, uid);
    }
}

/// What one appended schedule adds to the count: one when it is a
/// permanent schedule of the counted UID, nothing otherwise.
proof fn lemma_count_perm_db_append(
    s: Seq<ScheduleListView>,
    key: Seq<u8>,
    sch: ScheduleView,
    uid: Seq<u8>,
)
    ensures
        count_perm_db(append_schedule(s, key, sch), uid) == count_perm_db(s, uid) + (if
            sch.train_uid == uid && sch.stp_indicator
            == crate::codes::STPIndicator::PermanentAssociation {
            1int
        } else {
            0int
        }),
        count_perm_db(append_schedule_if_present(s, key, sch), uid) <= count_perm_db(s, uid) + (
        if sch.train_uid == uid && sch.stp_indicator
            == crate::codes::STPIndicator::PermanentAssociation {
            1int
        } else {
            0int
        }),
{
    lemma_schedule_index_of(s, key);
    let k = schedule_index_of(s, key);
    let delta: int = if sch.train_uid == uid && sch.stp_indicator
        == crate::codes::STPIndicator::PermanentAssociation {
        1
    } else {
        0
    };
    if k >= 0 {
        let entry = ScheduleListView { train_uid: key, schedules: s[k].schedules.push(sch) };
        assert(entry.schedules.drop_last() =~= s[k].schedules);
        assert(count_perm_list(entry.schedules, uid) == count_perm_list(s[k].schedules, uid)
            + delta);
        lemma_count_perm_db_update(s, k, entry, uid);
    } else {
        let entry = ScheduleListView { train_uid: key, schedules: seq![sch] };
        assert(entry.schedules.len() == 1 && entry.schedules.last() == sch);
        assert(entry.schedules.drop_last() =~= Seq::<ScheduleView>::empty());
        assert(count_perm_list(Seq::<ScheduleView>::empty(), uid) == 0);
        assert(count_perm_list(entry.schedules, uid) == delta);
        lemma_count_perm_db_push(s, entry, uid);
    }
}

/// Removing a UID's list never increases the count.
proof fn lemma_count_perm_db_remove_schedules(
    s: Seq<ScheduleListView>,
    key: Seq<u8>,
    uid: Seq<u8>,
)
    ensures
        count_perm_db(remove_schedules(s, key), uid) <= count_perm_db(s, uid),
{
    lemma_schedule_index_of(s, key);
    let k = schedule_index_of(s, key);
    if k >= 0 {
        lemma_count_perm_db_remove(s, k, uid);
        lemma_count_perm_list_nonneg(s[k].schedules, uid);
    }
}

/// A basic schedule record that would add a permanent schedule of `uid`:
/// its trimmed UID is `uid` and its STP indicator byte names a permanent
/// schedule.
pub open spec fn is_perm_bs_for(r: RecordView, uid: Seq<u8>) -> bool {
    match r {
        RecordView::BasicSchedule { train_uid, stp_indicator, .. } => trim_spaces(train_uid)
            == uid && stp_indicator == crate::text::P,
        _ => false,
    }
}

/// How many records in `records[lo..hi]` are permanent basic schedule
/// records of `uid`.
pub open spec fn count_perm_bs(records: Seq<RecordView>, lo: int, hi: int, uid: Seq<u8>) -> int
    decreases hi - lo,
{
    if hi <= lo {
        0
    } else {
        count_perm_bs(records, lo, hi - 1, uid) + (if is_perm_bs_for(records[hi - 1], uid) {
            1int
        } else {
            0int
        })
    }
}

proof fn lemma_count_perm_bs_nonneg(records: Seq<RecordView>, lo: int, hi: int, uid: Seq<u8>)
    ensures
        count_perm_bs(records, lo, hi, uid) >= 0,
    decreases hi - lo,
{
    if hi > lo {
        lemma_count_perm_bs_nonneg(records, lo, hi - 1, uid);
    }
}

proof fn lemma_count_perm_bs_split(
    records: Seq<RecordView>,
    lo: int,
    mid: int,
    hi: int,
    uid: Seq<u8>,
)
    requires
        lo <= mid <= hi,
    ensures
        count_perm_bs(records, lo, hi, uid) == count_perm_bs(records, lo, mid, uid)
            + count_perm_bs(records, mid, hi, uid),
    decreases hi - mid,
{
    if mid < hi {
        lemma_count_perm_bs_split(records, lo, mid, hi - 1, uid);
    }
}

proof fn lemma_count_perm_bs_at_least_one(
    records: Seq<RecordView>,
    lo: int,
    hi: int,
    k: int,
    uid: Seq<u8>,
)
    requires
        lo <= k < hi,
        is_perm_bs_for(records[k], uid),
    ensures
        count_perm_bs(records, lo, hi, uid) >= 1,
    decreases hi - k,
{
    if k == hi - 1 {
        lemma_count_perm_bs_nonneg(records, lo, hi - 1, uid);
    } else {
        lemma_count_perm_bs_at_least_one(records, lo, hi - 1, k, uid);
    }
}

/// The last basic schedule record of a bundle stands in the bundle.
proof fn lemma_last_bs_in(bundle: Seq<RecordView>, r: RecordView)
    requires
        last_bs(bundle) == Some(r),
    ensures
        exists|k: int| 0 <= k < bundle.len() && bundle[k] == r && r is BasicSchedule,
    decreases bundle.len(),
{
    if bundle.len() > 0 {
        if bundle.last() is BasicSchedule {
            assert(bundle[bundle.len() - 1] == r);
        } else {
            lemma_last_bs_in(bundle.drop_last(), r);
            let k = choose|k: int|
                0 <= k < bundle.drop_last().len() && bundle.drop_last()[k] == r
                    && r is BasicSchedule;
            assert(bundle[k] == r);
        }
    }
}

/// The engine invariant behind the multiplicity law: the count of stored
/// permanent schedules of a non-empty UID never exceeds the count of
/// permanent basic schedule records already consumed into closed
/// bundles.
proof fn lemma_multiplicity_invariant(
    db0: DatabaseView,
    records: Seq<RecordView>,
    n: int,
    uid: Seq<u8>,
)
    requires
        count_perm_db(db0.schedules, uid) == 0,
        uid.len() > 0,
        n <= records.len(),
    ensures
        count_perm_db(run_engine(db0, records, n).db.schedules, uid) <= count_perm_bs(
            records,
            0,
            run_engine(db0, records, n).bundle_start,
            uid,
        ),
        0 <= run_engine(db0, records, n).bundle_start,
        run_engine(db0, records, n).bundle_start <= n || n < 0,
    decreases n,
{
    if n <= 0 {
    } else {
        lemma_multiplicity_invariant(db0, records, n - 1, uid);
        let st = run_engine(db0, records, n - 1);
        let st2 = run_engine(db0, records, n);
        let r = records[n - 1];
        let i = n - 1;
        if submits(r) {
            lemma_count_perm_bs_nonneg(records, st.bundle_start, i + 1, uid);
            lemma_count_perm_bs_split(records, 0, st.bundle_start, i + 1, uid);
            if st.bundle_start == i {
                lemma_apply_single_count(st.db, r, uid);
                assert(count_perm_bs(records, 0, i + 1, uid) >= count_perm_bs(
                    records,
                    0,
                    st.bundle_start,
                    uid,
                ));
            } else {
                let bundle = records.subrange(st.bundle_start, i + 1);
                match schedule_of_bundle(bundle) {
                    Err(_) => {},
                    Ok(s) => {
                        lemma_count_perm_db_append(st.db.schedules, s.train_uid, s, uid);
                        if s.train_uid == uid && s.stp_indicator
                            == crate::codes::STPIndicator::PermanentAssociation {
                            lemma_schedule_of_bundle_uid(bundle, s);
                            match last_bs(bundle) {
                                None => {
                                    assert(false);
                                },
                                Some(bs) => {
                                    lemma_last_bs_in(bundle, bs);
                                    let k = choose|k: int|
                                        0 <= k < bundle.len() && bundle[k] == bs
                                            && bs is BasicSchedule;
                                    assert(records[st.bundle_start + k] == bs);
                                    assert(is_perm_bs_for(bs, uid));
                                    lemma_count_perm_bs_at_least_one(
                                        records,
                                        st.bundle_start,
                                        i + 1,
                                        st.bundle_start + k,
                                        uid,
                                    );
                                },
                            }
                        }
                    },
                }
            }
        }
    }
}

/// What one singleton record does to the permanent-schedule count: a
/// delete can only lower it, a cancellation adds a cancellation entry,
/// and nothing else touches the schedules.
proof fn lemma_apply_single_count(db: DatabaseView, r: RecordView, uid: Seq<u8>)
    requires
        submits(r),
    ensures
        count_perm_db(apply_single(db, r).0.schedules, uid) <= count_perm_db(db.schedules, uid),
{
    match r {
        RecordView::BasicSchedule { transaction_type, train_uid, stp_indicator, .. } => {
            if transaction_type == crate::text::D {
                lemma_count_perm_db_remove_schedules(db.schedules, trim_spaces(train_uid), uid);
            } else {
                match apply_bs(empty_schedule(), r) {
                    Err(_) => {},
                    Ok(s) => {
                        lemma_apply_bs_shape(empty_schedule(), r, s);
                        lemma_count_perm_db_append(db.schedules, s.train_uid, s, uid);
                        if s.train_uid == uid && s.stp_indicator
                            == crate::codes::STPIndicator::PermanentAssociation {
                            assert(crate::codes::stp_indicator_of(stp_indicator) == Some(
                                crate::codes::STPIndicator::PermanentAssociation,
                            ));
                            assert(stp_indicator == crate::text::P);
                        }
                    },
                }
            }
        },
        _ => {},
    }
}

/// Schedule multiplicity: starting from an empty database, a stream that
/// holds at most one permanent basic schedule record of a train UID
/// leaves at most one permanent schedule stored for that UID, however
/// many cancellations, overlays or other records it holds. The UID must
/// be non-empty: a bundle with no basic schedule record at all builds a
/// schedule with an empty UID and the permanent default indicator.
pub proof fn lemma_schedule_multiplicity(records: Seq<RecordView>, n: int, uid: Seq<u8>)
    requires
        uid.len() > 0,
        count_perm_bs(records, 0, records.len() as int, uid) <= 1,
        0 <= n <= records.len(),
    ensures
        count_perm_db(
            run_engine(crate::schedule::ScheduleDatabase::spec_new(), records, n).db.schedules,
            uid,
        ) <= 1,
{
    let db0 = crate::schedule::ScheduleDatabase::spec_new();
    lemma_multiplicity_invariant(db0, records, n, uid);
    let st = run_engine(db0, records, n);
    lemma_count_perm_bs_split(records, 0, st.bundle_start, records.len() as int, uid);
    lemma_count_perm_bs_nonneg(records, st.bundle_start, records.len() as int, uid);
}

/// Every journey call stored anywhere in the schedule lists has a
/// location of at most `m` bytes.
pub open spec fn list_journeys_within(s: Seq<ScheduleListView>, m: int) -> bool {
    forall|i: int, j: int, l: int|
        0 <= i < s.len() && 0 <= j < s[i].schedules.len() && 0 <= l
            < s[i].schedules[j].journey.len() ==> (#[trigger] s[i].schedules[j].journey[l]).tiploc.len() <= m
}

proof fn lemma_append_journeys_within(
    s: Seq<ScheduleListView>,
    key: Seq<u8>,
    sch: ScheduleView,
    m: int,
)
    requires
        list_journeys_within(s, m),
        forall|l: int| 0 <= l < sch.journey.len() ==> (#[trigger] sch.journey[l]).tiploc.len() <= m,
    ensures
        list_journeys_within(append_schedule(s, key, sch), m),
        list_journeys_within(append_schedule_if_present(s, key, sch), m),
{
    lemma_schedule_index_of(s, key);
    let k = schedule_index_of(s, key);
    let out = append_schedule(s, key, sch);
    assert forall|i: int, j: int, l: int|
        0 <= i < out.len() && 0 <= j < out[i].schedules.len() && 0 <= l
            < out[i].schedules[j].journey.len() implies (#[trigger] out[i].schedules[j].journey[l]).tiploc.len()
        <= m by {
        if k >= 0 {
            if i == k {
                if j < s[k].schedules.len() {
                    assert(out[i].schedules[j] == s[k].schedules[j]);
                } else {
                    assert(out[i].schedules[j] == sch);
                }
            } else {
                assert(out[i] == s[i]);
            }
        } else {
            if i < s.len() {
                assert(out[i] == s[i]);
            } else {
                assert(out[i].schedules[j] == sch);
            }
        }
    }
    if k >= 0 {
        assert(append_schedule_if_present(s, key, sch) == out);
    }
}

proof fn lemma_remove_journeys_within(s: Seq<ScheduleListView>, key: Seq<u8>, m: int)
    requires
        list_journeys_within(s, m),
    ensures
        list_journeys_within(remove_schedules(s, key), m),
{
    lemma_schedule_index_of(s, key);
    let k = schedule_index_of(s, key);
    if k >= 0 {
        let out = s.remove(k);
        assert forall|i: int, j: int, l: int|
            0 <= i < out.len() && 0 <= j < out[i].schedules.len() && 0 <= l
                < out[i].schedules[j].journey.len() implies (#[trigger] out[i].schedules[j].journey[l]).tiploc.len()
            <= m by {
            if i < k {
                assert(out[i] == s[i]);
            } else {
                assert(out[i] == s[i + 1]);
            }
        }
    }
}

/// A stream whose location fields all fit in `m` bytes leaves only
/// journey calls of at most `m` bytes in the database. With the decoder's
/// eight-byte location fields this bounds every stored location at eight
/// bytes; a feed whose trimmed locations are plain TIPLOCs keeps them
/// within seven.
pub proof fn lemma_run_engine_journeys_within(
    db0: DatabaseView,
    records: Seq<RecordView>,
    n: int,
    m: int,
)
    requires
        list_journeys_within(db0.schedules, m),
        forall|k: int|
            0 <= k < records.len() ==> location_len_within(#[trigger] records[k], m),
        n <= records.len(),
    ensures
        list_journeys_within(run_engine(db0, records, n).db.schedules, m),
        0 <= run_engine(db0, records, n).bundle_start,
        run_engine(db0, records, n).bundle_start <= n || n < 0,
    decreases n,
{
    if n > 0 {
        lemma_run_engine_journeys_within(db0, records, n - 1, m);
        let st = run_engine(db0, records, n - 1);
        let r = records[n - 1];
        if submits(r) {
            if st.bundle_start == n - 1 {
                match r {
                    RecordView::BasicSchedule { transaction_type, train_uid, .. } => {
                        if transaction_type == crate::text::D {
                            lemma_remove_journeys_within(
                                st.db.schedules,
                                trim_spaces(train_uid),
                                m,
                            );
                        } else {
                            match apply_bs(empty_schedule(), r) {
                                Err(_) => {},
                                Ok(s) => {
                                    lemma_apply_bs_shape(empty_schedule(), r, s);
                                    lemma_append_journeys_within(
                                        st.db.schedules,
                                        s.train_uid,
                                        s,
                                        m,
                                    );
                                },
                            }
                        }
                    },
                    _ => {},
                }
            } else {
                let bundle = records.subrange(st.bundle_start, n);
                match schedule_of_bundle(bundle) {
                    Err(_) => {},
                    Ok(s) => {
                        assert(forall|k: int|
                            0 <= k < bundle.len() ==> location_len_within(
                                #[trigger] bundle[k],
                                m,
                            ));
                        lemma_schedule_of_bundle_journey(bundle, s, m);
                        lemma_append_journeys_within(st.db.schedules, s.train_uid, s, m);
                    },
                }
            }
        }
    }
}

/// Every record of a successfully decoded feed has the decoder's field
/// sizes.
pub proof fn lemma_decoded_stream_records_sized(
    content: Seq<u8>,
    line: nat,
    recs: Seq<RecordView>,
)
    requires
        crate::decoder::decode_stream(content, line) == Ok::<
            Seq<RecordView>,
            crate::decoder::CIFParseError,
        >(recs),
    ensures
        forall|i: int| 0 <= i < recs.len() ==> record_sized(#[trigger] recs[i]),
{
    crate::decoder::lemma_decoded_rows_span(content, line, recs);
    assert forall|i: int| 0 <= i < recs.len() implies record_sized(#[trigger] recs[i]) by {
        lemma_decode_record_sized(content.subrange(81 * i, 81 * i + 80), recs[i]);
    }
}

/// The end-to-end trimming law: applying any decoded feed to a fresh
/// database leaves a well-formed database, so every stored TIPLOC code is
/// trimmed and at most seven bytes, every stored train UID is trimmed and
/// at most six, and every stored journey location is trimmed.
pub proof fn lemma_decoded_feed_database_wf(content: Seq<u8>, recs: Seq<RecordView>, n: int)
    requires
        crate::decoder::decode_stream(content, 1) == Ok::<
            Seq<RecordView>,
            crate::decoder::CIFParseError,
        >(recs),
        0 <= n <= recs.len(),
    ensures
        run_engine(crate::schedule::ScheduleDatabase::spec_new(), recs, n).db.wf(),
{
    lemma_decoded_stream_records_sized(content, 1, recs);
    let db0 = crate::schedule::ScheduleDatabase::spec_new();
    assert(db0.wf());
    lemma_run_engine_wf(db0, recs, n);
}

} // verus!
