//! The schedule application engine.
//!
//! Records are consumed in order and grouped into bundles: most records
//! apply alone, while a basic schedule record that neither deletes nor
//! cancels opens a schedule bundle that closes at the next terminating
//! location record. The whole engine is specified by the spec-level
//! transition [`run_engine`]; `apply_records` is proved to compute exactly
//! that transition, error list included. A record that cannot be applied is
//! reported with its index and skipped; the stream is never abandoned.

use vstd::prelude::*;

use crate::codes::{
    bank_holiday_running_from, bank_holiday_running_of, catering_from, catering_of,
    operating_characteristics_from, operating_characteristics_of, power_type_from, power_type_of,
    reservations_of, seating_class_from, seating_class_of, sleepers_of, stp_indicator_from,
    stp_indicator_of, timing_load_from, timing_load_of, train_category_from, train_category_of,
    train_status_from, train_status_of,
};
use crate::dates::{
    date_of_ddmmyy, date_of_yymmdd, parse_date_ddmmyy, parse_date_yymmdd, parse_time_hhmm,
    time_of_hhmm, DateTime,
};
use crate::daysrun::{days_run_of, parse_days_run};
use crate::errors::{ApplyErrorView, ScheduleApplyError};
use crate::records::{CIFFile, CIFRecord, RecordView};
use crate::schedule::{
    append_schedule, append_schedule_if_present, empty_schedule, remove_schedules, remove_tiploc,
    upsert_tiploc, DatabaseView, JourneyLocation, JourneyLocationView, Schedule, ScheduleDatabase,
    ScheduleView, TiplocView, TIPLOC,
};
use crate::text::{capped_number, copy_bytes, trim_bytes, trim_spaces, D, F, Y};
use crate::time::{journey_time_of, JourneyTime};

verus! {

/// The speed field's reading: the trimmed field as a number, or 0 when it
/// is blank, not numeric, or too large for a `u32`.
pub open spec fn speed_of(s: Seq<u8>) -> u32 {
    match capped_number(trim_spaces(s)) {
        Some(v) => {
            if v < 0x1_0000_0000 {
                v as u32
            } else {
                0u32
            }
        },
        None => 0u32,
    }
}

fn speed_from(s: &[u8]) -> (r: u32)
    ensures
        r == speed_of(s@),
{
    let t = trim_bytes(s);
    match crate::text::parse_number_capped(t.as_slice()) {
        Some(v) => {
            if v < 0x1_0000_0000 {
                v as u32
            } else {
                0
            }
        },
        None => 0,
    }
}

/// An optional journey time field: blank means no time, anything else
/// must be a journey time.
pub open spec fn opt_journey_time_of(f: Seq<u8>) -> Result<Option<JourneyTime>, ApplyErrorView> {
    if trim_spaces(f).len() == 0 {
        Ok(None)
    } else {
        match journey_time_of(f) {
            Some(t) => Ok(Some(t)),
            None => Err(ApplyErrorView::InvalidJourneyTime(f)),
        }
    }
}

fn required_time(f: &[u8]) -> (r: Result<JourneyTime, ScheduleApplyError>)
    ensures
        match r {
            Ok(t) => journey_time_of(f@) == Some(t),
            Err(e) => journey_time_of(f@) is None && e@ == ApplyErrorView::InvalidJourneyTime(f@),
        },
{
    match JourneyTime::parse(f) {
        Some(t) => Ok(t),
        None => Err(ScheduleApplyError::InvalidJourneyTime(copy_bytes(f))),
    }
}

fn optional_time(f: &[u8]) -> (r: Result<Option<JourneyTime>, ScheduleApplyError>)
    ensures
        match r {
            Ok(t) => opt_journey_time_of(f@) == Ok::<Option<JourneyTime>, ApplyErrorView>(t),
            Err(e) => opt_journey_time_of(f@) == Err::<Option<JourneyTime>, ApplyErrorView>(e@),
        },
{
    let t = trim_bytes(f);
    if t.len() == 0 {
        Ok(None)
    } else {
        match JourneyTime::parse(f) {
            Some(t) => Ok(Some(t)),
            None => Err(ScheduleApplyError::InvalidJourneyTime(copy_bytes(f))),
        }
    }
}

/// The schedule fields set by a basic schedule record: every code table
/// is resolved, in field order, and the first unresolvable field is the
/// error. A record of any other kind leaves the schedule as it is.
pub open spec fn apply_bs(sch: ScheduleView, r: RecordView) -> Result<
    ScheduleView,
    ApplyErrorView,
> {
    match r {
        RecordView::BasicSchedule {
            transaction_type: _,
            train_uid,
            date_runs_from,
            date_runs_to,
            days_run,
            bank_holiday_running,
            train_status,
            train_category,
            train_identity,
            headcode: _,
            course_indicator: _,
            train_service_code: _,
            portion_id,
            power_type,
            timing_load,
            speed,
            operating_characteristics,
            seating_class,
            sleepers,
            reservations,
            connection_indicator: _,
            catering_code,
            service_branding: _,
            stp_indicator,
        } => {
            match date_of_yymmdd(date_runs_from) {
                None => Err(ApplyErrorView::InvalidScheduleDate(date_runs_from)),
                Some(from) => match date_of_yymmdd(date_runs_to) {
                    None => Err(ApplyErrorView::InvalidScheduleDate(date_runs_to)),
                    Some(to) => match days_run_of(days_run) {
                        None => Err(ApplyErrorView::InvalidDaysRun(days_run)),
                        Some(days) => match train_status_of(train_status) {
                            None => Err(ApplyErrorView::InvalidTrainStatus(train_status)),
                            Some(status) => {
                                if train_category.len() != 2 {
                                    Err(ApplyErrorView::InvalidTrainCategory(train_category))
                                } else {
                                    match train_category_of(train_category[0], train_category[1]) {
                                        None => Err(ApplyErrorView::InvalidTrainCategory(
                                            train_category,
                                        )),
                                        Some(category) => match power_type_of(
                                            trim_spaces(power_type),
                                        ) {
                                            None => Err(ApplyErrorView::InvalidPowerType(
                                                power_type,
                                            )),
                                            Some(power) => match timing_load_of(
                                                power,
                                                trim_spaces(timing_load),
                                            ) {
                                                None => Err(ApplyErrorView::InvalidTimingLoad(
                                                    timing_load,
                                                )),
                                                Some(tl) => match operating_characteristics_of(
                                                    operating_characteristics,
                                                ) {
                                                    Err(c) => Err(
                                                        ApplyErrorView::InvalidOperatingCharacteristic(c),
                                                    ),
                                                    Ok(ops) => match seating_class_of(
                                                        seating_class,
                                                    ) {
                                                        None => Err(
                                                            ApplyErrorView::InvalidSeatingClass(seating_class),
                                                        ),
                                                        Some(seat) => match sleepers_of(
                                                            sleepers,
                                                        ) {
                                                            None => Err(
                                                                ApplyErrorView::InvalidSleepers(sleepers),
                                                            ),
                                                            Some(slp) => match
                                                                reservations_of(reservations) {
                                                                None => Err(
                                                                    ApplyErrorView::InvalidReservations(reservations),
                                                                ),
                                                                Some(resv) => match catering_of(
                                                                    catering_code,
                                                                ) {
                                                                    Err(c) => Err(
                                                                        ApplyErrorView::InvalidCateringCode(c),
                                                                    ),
                                                                    Ok(cat) => match
                                                                        stp_indicator_of(stp_indicator) {
                                                                        None => Err(
                                                                            ApplyErrorView::InvalidSTPIndicator(stp_indicator),
                                                                        ),
                                                                        Some(stp) => Ok(
                                                                            ScheduleView {
                                                                                train_uid: trim_spaces(train_uid),
                                                                                runs_from: from,
                                                                                runs_to: to,
                                                                                days_run: days,
                                                                                bank_holiday_running: bank_holiday_running_of(
                                                                                    bank_holiday_running,
                                                                                ),
                                                                                atoc_code: sch.atoc_code,
                                                                                subject_to_performance_monitoring:
                                                                                    sch.subject_to_performance_monitoring,
                                                                                train_status: status,
                                                                                train_category: category,
                                                                                headcode: trim_spaces(train_identity),
                                                                                portion_id,
                                                                                power_type: power,
                                                                                timing_load: tl,
                                                                                speed: speed_of(speed),
                                                                                operating_characteristics: ops,
                                                                                seating_class: seat,
                                                                                sleepers: slp,
                                                                                reservations: resv,
                                                                                catering: cat,
                                                                                stp_indicator: stp,
                                                                                journey: sch.journey,
                                                                            },
                                                                        ),
                                                                    },
                                                                },
                                                            },
                                                        },
                                                    },
                                                },
                                            },
                                        },
                                    }
                                }
                            },
                        },
                    },
                },
            }
        },
        _ => Ok(sch),
    }
}

/// Fills `schedule` from a basic schedule record. On an error the record
/// is unusable and the schedule's value is unspecified; the caller
/// discards it.
fn bs_record_to_schedule(schedule: &mut Schedule, record: &CIFRecord) -> (r: Result<
    (),
    ScheduleApplyError,
>)
    requires
        record@ is BasicSchedule,
    ensures
        match r {
            Ok(_) => apply_bs(old(schedule)@, record@) == Ok::<ScheduleView, ApplyErrorView>(
                final(schedule)@,
            ),
            Err(e) => apply_bs(old(schedule)@, record@) == Err::<ScheduleView, ApplyErrorView>(
                e@,
            ),
        },
{
    match record {
        CIFRecord::BasicSchedule {
            transaction_type: _,
            train_uid,
            date_runs_from,
            date_runs_to,
            days_run,
            bank_holiday_running,
            train_status,
            train_category,
            train_identity,
            headcode: _,
            course_indicator: _,
            train_service_code: _,
            portion_id,
            power_type,
            timing_load,
            speed,
            operating_characteristics,
            seating_class,
            sleepers,
            reservations,
            connection_indicator: _,
            catering_code,
            service_branding: _,
            stp_indicator,
        } => {
            let from = match parse_date_yymmdd(date_runs_from.as_slice()) {
                Some(d) => d,
                None => {
                    return Err(ScheduleApplyError::InvalidScheduleDate(copy_bytes(
                        date_runs_from.as_slice(),
                    )));
                },
            };
            let to = match parse_date_yymmdd(date_runs_to.as_slice()) {
                Some(d) => d,
                None => {
                    return Err(ScheduleApplyError::InvalidScheduleDate(copy_bytes(
                        date_runs_to.as_slice(),
                    )));
                },
            };
            let days = match parse_days_run(days_run.as_slice()) {
                Some(d) => d,
                None => {
                    return Err(ScheduleApplyError::InvalidDaysRun(copy_bytes(
                        days_run.as_slice(),
                    )));
                },
            };
            let status = match train_status_from(*train_status) {
                Some(v) => v,
                None => {
                    return Err(ScheduleApplyError::InvalidTrainStatus(*train_status));
                },
            };
            if train_category.len() != 2 {
                return Err(ScheduleApplyError::InvalidTrainCategory(copy_bytes(
                    train_category.as_slice(),
                )));
            }
            let category = match train_category_from(train_category[0], train_category[1]) {
                Some(v) => v,
                None => {
                    return Err(ScheduleApplyError::InvalidTrainCategory(copy_bytes(
                        train_category.as_slice(),
                    )));
                },
            };
            let power_trimmed = trim_bytes(power_type.as_slice());
            let power = match power_type_from(power_trimmed.as_slice()) {
                Some(v) => v,
                None => {
                    return Err(ScheduleApplyError::InvalidPowerType(copy_bytes(
                        power_type.as_slice(),
                    )));
                },
            };
            let timing_trimmed = trim_bytes(timing_load.as_slice());
            let tl = match timing_load_from(power, timing_trimmed.as_slice()) {
                Some(v) => v,
                None => {
                    return Err(ScheduleApplyError::InvalidTimingLoad(copy_bytes(
                        timing_load.as_slice(),
                    )));
                },
            };
            let ops = match operating_characteristics_from(operating_characteristics.as_slice()) {
                Ok(v) => v,
                Err(c) => {
                    return Err(ScheduleApplyError::InvalidOperatingCharacteristic(c));
                },
            };
            let seat = match seating_class_from(*seating_class) {
                Some(v) => v,
                None => {
                    return Err(ScheduleApplyError::InvalidSeatingClass(*seating_class));
                },
            };
            let slp = match crate::codes::sleepers_from(*sleepers) {
                Some(v) => v,
                None => {
                    return Err(ScheduleApplyError::InvalidSleepers(*sleepers));
                },
            };
            let resv = match crate::codes::reservations_from(*reservations) {
                Some(v) => v,
                None => {
                    return Err(ScheduleApplyError::InvalidReservations(*reservations));
                },
            };
            let cat = match catering_from(catering_code.as_slice()) {
                Ok(v) => v,
                Err(c) => {
                    return Err(ScheduleApplyError::InvalidCateringCode(c));
                },
            };
            let stp = match stp_indicator_from(*stp_indicator) {
                Some(v) => v,
                None => {
                    return Err(ScheduleApplyError::InvalidSTPIndicator(*stp_indicator));
                },
            };
            schedule.train_uid = trim_bytes(train_uid.as_slice());
            schedule.runs_from = from;
            schedule.runs_to = to;
            schedule.days_run = days;
            schedule.bank_holiday_running = bank_holiday_running_from(*bank_holiday_running);
            schedule.train_status = status;
            schedule.train_category = category;
            schedule.headcode = trim_bytes(train_identity.as_slice());
            schedule.portion_id = *portion_id;
            schedule.power_type = power;
            schedule.timing_load = tl;
            schedule.speed = speed_from(speed.as_slice());
            schedule.operating_characteristics = ops;
            schedule.seating_class = seat;
            schedule.sleepers = slp;
            schedule.reservations = resv;
            schedule.catering = cat;
            schedule.stp_indicator = stp;
            proof {
                assert(apply_bs(old(schedule)@, record@) matches Ok(s) && s =~= schedule@);
            }
            Ok(())
        },
        _ => {
            proof {
                assert(false);
            }
            Err(ScheduleApplyError::InvalidSTPIndicator(0))
        },
    }
}

/// One record of a schedule bundle folded into the schedule under
/// construction: a basic schedule fills the code fields, the extended
/// record sets the operator fields, and each location record appends one
/// journey call. A change-en-route record is deliberately discarded: its
/// mid-journey overrides are not modelled on the schedule. Any other kind
/// changes nothing.
pub open spec fn apply_bundle_record(sch: ScheduleView, r: RecordView) -> Result<
    ScheduleView,
    ApplyErrorView,
> {
    match r {
        RecordView::BasicSchedule { .. } => apply_bs(sch, r),
        RecordView::BasicScheduleExtended { atoc_code, applicable_timetable_code, .. } => Ok(
            ScheduleView {
                atoc_code: trim_spaces(atoc_code),
                subject_to_performance_monitoring: applicable_timetable_code == Y,
                ..sch
            },
        ),
        RecordView::LocationOrigin {
            location,
            scheduled_departure_time,
            public_departure_time,
            platform,
            line,
            activity,
            ..
        } => {
            match journey_time_of(scheduled_departure_time) {
                None => Err(ApplyErrorView::InvalidJourneyTime(scheduled_departure_time)),
                Some(dep) => match journey_time_of(public_departure_time) {
                    None => Err(ApplyErrorView::InvalidJourneyTime(public_departure_time)),
                    Some(pdep) => Ok(
                        ScheduleView {
                            journey: sch.journey.push(
                                JourneyLocationView {
                                    tiploc: trim_spaces(location),
                                    arrival_time: None,
                                    departure_time: Some(dep),
                                    passing_time: None,
                                    public_arrival: None,
                                    public_departure: Some(pdep),
                                    platform: trim_spaces(platform),
                                    line: trim_spaces(line),
                                    activity: trim_spaces(activity),
                                },
                            ),
                            ..sch
                        },
                    ),
                },
            }
        },
        RecordView::LocationIntermediate {
            location,
            scheduled_arrival_time,
            scheduled_departure_time,
            scheduled_pass,
            public_arrival_time,
            public_departure_time,
            platform,
            line,
            activity,
            ..
        } => {
            match opt_journey_time_of(scheduled_arrival_time) {
                Err(e) => Err(e),
                Ok(arr) => match opt_journey_time_of(scheduled_departure_time) {
                    Err(e) => Err(e),
                    Ok(dep) => match opt_journey_time_of(scheduled_pass) {
                        Err(e) => Err(e),
                        Ok(pass) => match opt_journey_time_of(public_arrival_time) {
                            Err(e) => Err(e),
                            Ok(parr) => match opt_journey_time_of(public_departure_time) {
                                Err(e) => Err(e),
                                Ok(pdep) => Ok(
                                    ScheduleView {
                                        journey: sch.journey.push(
                                            JourneyLocationView {
                                                tiploc: trim_spaces(location),
                                                arrival_time: arr,
                                                departure_time: dep,
                                                passing_time: pass,
                                                public_arrival: parr,
                                                public_departure: pdep,
                                                platform: trim_spaces(platform),
                                                line: trim_spaces(line),
                                                activity: trim_spaces(activity),
                                            },
                                        ),
                                        ..sch
                                    },
                                ),
                            },
                        },
                    },
                },
            }
        },
        RecordView::LocationTerminate {
            location,
            scheduled_arrival_time,
            public_arrival_time,
            platform,
            activity,
            ..
        } => {
            match journey_time_of(scheduled_arrival_time) {
                None => Err(ApplyErrorView::InvalidJourneyTime(scheduled_arrival_time)),
                Some(arr) => match journey_time_of(public_arrival_time) {
                    None => Err(ApplyErrorView::InvalidJourneyTime(public_arrival_time)),
                    Some(parr) => Ok(
                        ScheduleView {
                            journey: sch.journey.push(
                                JourneyLocationView {
                                    tiploc: trim_spaces(location),
                                    arrival_time: Some(arr),
                                    departure_time: None,
                                    passing_time: None,
                                    public_arrival: Some(parr),
                                    public_departure: None,
                                    platform: trim_spaces(platform),
                                    line: Seq::empty(),
                                    activity: trim_spaces(activity),
                                },
                            ),
                            ..sch
                        },
                    ),
                },
            }
        },
        _ => Ok(sch),
    }
}

/// The schedule a whole bundle builds, folding its records in order from
/// the empty schedule. The first record that cannot be folded is the
/// bundle's error.
pub open spec fn schedule_of_bundle(bundle: Seq<RecordView>) -> Result<
    ScheduleView,
    ApplyErrorView,
>
    decreases bundle.len(),
{
    if bundle.len() == 0 {
        Ok(empty_schedule())
    } else {
        match schedule_of_bundle(bundle.drop_last()) {
            Err(e) => Err(e),
            Ok(s) => apply_bundle_record(s, bundle.last()),
        }
    }
}

/// A bundle that fails at a prefix fails as that prefix does.
pub proof fn lemma_bundle_err_persists(b: Seq<RecordView>, n: int)
    requires
        0 <= n <= b.len(),
        schedule_of_bundle(b.take(n)) is Err,
    ensures
        schedule_of_bundle(b) == schedule_of_bundle(b.take(n)),
    decreases b.len() - n,
{
    if n < b.len() {
        assert(b.take(n + 1).drop_last() =~= b.take(n));
        lemma_bundle_err_persists(b, n + 1);
    } else {
        assert(b.take(n) =~= b);
    }
}

/// The database change of one singleton record. A full-update header
/// clears the TIPLOCs and deliberately keeps the schedules; the clearing
/// happens before the header's date fields are read, so a bad full-update
/// header both errs and leaves that clearing behind. Every other error
/// leaves the database unchanged.
pub open spec fn apply_single(db: DatabaseView, r: RecordView) -> (
    DatabaseView,
    Option<ApplyErrorView>,
) {
    match r {
        RecordView::Header { date_of_extract, time_of_extract, update_indicator, .. } => {
            let db1 = if update_indicator == F {
                DatabaseView { tiplocs: Seq::empty(), ..db }
            } else {
                db
            };
            match date_of_ddmmyy(date_of_extract) {
                None => (db1, Some(ApplyErrorView::InvalidHeaderDateTime(date_of_extract))),
                Some(d) => match time_of_hhmm(time_of_extract) {
                    None => (db1, Some(ApplyErrorView::InvalidHeaderDateTime(time_of_extract))),
                    Some(hm) => (
                        DatabaseView {
                            extract_date_time: DateTime { date: d, hour: hm.0, minute: hm.1 },
                            ..db1
                        },
                        None,
                    ),
                },
            }
        },
        RecordView::TIPLOCInsert { tiploc, tps_description, three_alpha_code, .. } => (
            DatabaseView {
                tiplocs: upsert_tiploc(
                    db.tiplocs,
                    TiplocView {
                        tiploc: trim_spaces(tiploc),
                        three_alpha_code: trim_spaces(three_alpha_code),
                        description: trim_spaces(tps_description),
                    },
                ),
                ..db
            },
            None,
        ),
        RecordView::TIPLOCAmend { tiploc, tps_description, three_alpha_code, new_tiploc, .. } => {
            let renamed = trim_spaces(new_tiploc);
            if renamed.len() == 0 {
                (
                    DatabaseView {
                        tiplocs: upsert_tiploc(
                            db.tiplocs,
                            TiplocView {
                                tiploc: trim_spaces(tiploc),
                                three_alpha_code: trim_spaces(three_alpha_code),
                                description: trim_spaces(tps_description),
                            },
                        ),
                        ..db
                    },
                    None,
                )
            } else {
                (
                    DatabaseView {
                        tiplocs: upsert_tiploc(
                            remove_tiploc(db.tiplocs, trim_spaces(tiploc)),
                            TiplocView {
                                tiploc: renamed,
                                three_alpha_code: trim_spaces(three_alpha_code),
                                description: trim_spaces(tps_description),
                            },
                        ),
                        ..db
                    },
                    None,
                )
            }
        },
        RecordView::TIPLOCDelete { tiploc } => (
            DatabaseView { tiplocs: remove_tiploc(db.tiplocs, trim_spaces(tiploc)), ..db },
            None,
        ),
        RecordView::BasicSchedule { transaction_type, train_uid, .. } => {
            if transaction_type == D {
                (
                    DatabaseView {
                        schedules: remove_schedules(db.schedules, trim_spaces(train_uid)),
                        ..db
                    },
                    None,
                )
            } else {
                match apply_bs(empty_schedule(), r) {
                    Err(e) => (db, Some(e)),
                    Ok(s) => (
                        DatabaseView {
                            schedules: append_schedule_if_present(db.schedules, s.train_uid, s),
                            ..db
                        },
                        None,
                    ),
                }
            }
        },
        _ => (db, None),
    }
}

/// The database change of one schedule bundle: the schedule it builds is
/// appended under its own train UID, creating the UID's list when it is
/// new. A revision is treated leniently: it appends like a new schedule,
/// whether or not the UID was known, and never replaces a stored variant.
/// A bundle that builds no schedule errs and changes nothing.
pub open spec fn apply_bundle(db: DatabaseView, bundle: Seq<RecordView>) -> (
    DatabaseView,
    Option<ApplyErrorView>,
) {
    match schedule_of_bundle(bundle) {
        Err(e) => (db, Some(e)),
        Ok(s) => (
            DatabaseView { schedules: append_schedule(db.schedules, s.train_uid, s), ..db },
            None,
        ),
    }
}

/// Whether a record closes the open bundle: every kind applies at once
/// except a schedule-opening basic schedule record and the records that
/// extend a bundle. A basic schedule applies alone only as a delete or a
/// cancellation.
pub open spec fn submits(r: RecordView) -> bool {
    match r {
        RecordView::Header { .. } => true,
        RecordView::Trailer => true,
        RecordView::Association { .. } => true,
        RecordView::LocationTerminate { .. } => true,
        RecordView::TIPLOCInsert { .. } => true,
        RecordView::TIPLOCAmend { .. } => true,
        RecordView::TIPLOCDelete { .. } => true,
        RecordView::BasicSchedule { transaction_type, stp_indicator, .. } => transaction_type == D
            || stp_indicator == crate::text::C,
        _ => false,
    }
}

/// The engine's whole state while it walks a record stream.
#[verifier::ext_equal]
pub struct EngineState {
    /// The database so far.
    pub db: DatabaseView,
    /// The errors reported so far: record index and reason, in order.
    pub errors: Seq<(usize, ApplyErrorView)>,
    /// The index where the currently open bundle began.
    pub bundle_start: int,
}

/// One engine step: record `i` either joins the open bundle or submits
/// it — alone when the bundle is just this record, as a bundle otherwise.
/// An error is recorded under the submitting record's index.
pub open spec fn engine_step(st: EngineState, records: Seq<RecordView>, i: int) -> EngineState {
    let r = records[i];
    if submits(r) {
        let step = if st.bundle_start == i {
            apply_single(st.db, r)
        } else {
            apply_bundle(st.db, records.subrange(st.bundle_start, i + 1))
        };
        EngineState {
            db: step.0,
            errors: match step.1 {
                Some(e) => st.errors.push((i as usize, e)),
                None => st.errors,
            },
            bundle_start: i + 1,
        }
    } else {
        st
    }
}

/// The engine run over the first `n` records of a stream, starting from
/// `db0` with no errors and no open bundle.
pub open spec fn run_engine(db0: DatabaseView, records: Seq<RecordView>, n: int) -> EngineState
    decreases n,
{
    if n <= 0 {
        EngineState { db: db0, errors: Seq::empty(), bundle_start: 0 }
    } else {
        engine_step(run_engine(db0, records, n - 1), records, n - 1)
    }
}

impl ScheduleDatabase {
    /// Applies one singleton record.
    fn apply_single_record(&mut self, record: &CIFRecord) -> (r: Result<(), ScheduleApplyError>)
        ensures
            final(self)@ == apply_single(old(self)@, record@).0,
            match r {
                Ok(_) => apply_single(old(self)@, record@).1 is None,
                Err(e) => apply_single(old(self)@, record@).1 == Some(e@),
            },
    {
        match record {
            CIFRecord::Header { date_of_extract, time_of_extract, update_indicator, .. } => {
                if *update_indicator == F {
                    self.clear_tiplocs();
                }
                let d = match parse_date_ddmmyy(date_of_extract.as_slice()) {
                    Some(d) => d,
                    None => {
                        return Err(ScheduleApplyError::InvalidHeaderDateTime(copy_bytes(
                            date_of_extract.as_slice(),
                        )));
                    },
                };
                let t = match parse_time_hhmm(time_of_extract.as_slice()) {
                    Some(t) => t,
                    None => {
                        return Err(ScheduleApplyError::InvalidHeaderDateTime(copy_bytes(
                            time_of_extract.as_slice(),
                        )));
                    },
                };
                self.set_extract_date_time(DateTime { date: d, hour: t.0, minute: t.1 });
                Ok(())
            },
            CIFRecord::TIPLOCInsert { tiploc, tps_description, three_alpha_code, .. } => {
                let entry = TIPLOC {
                    tiploc: trim_bytes(tiploc.as_slice()),
                    three_alpha_code: trim_bytes(three_alpha_code.as_slice()),
                    description: trim_bytes(tps_description.as_slice()),
                };
                self.upsert_tiploc_entry(entry);
                Ok(())
            },
            CIFRecord::TIPLOCAmend {
                tiploc,
                tps_description,
                three_alpha_code,
                new_tiploc,
                ..
            } => {
                let renamed = trim_bytes(new_tiploc.as_slice());
                if renamed.len() == 0 {
                    let entry = TIPLOC {
                        tiploc: trim_bytes(tiploc.as_slice()),
                        three_alpha_code: trim_bytes(three_alpha_code.as_slice()),
                        description: trim_bytes(tps_description.as_slice()),
                    };
                    self.upsert_tiploc_entry(entry);
                } else {
                    let old_key = trim_bytes(tiploc.as_slice());
                    self.remove_tiploc_entry(old_key.as_slice());
                    let entry = TIPLOC {
                        tiploc: renamed,
                        three_alpha_code: trim_bytes(three_alpha_code.as_slice()),
                        description: trim_bytes(tps_description.as_slice()),
                    };
                    self.upsert_tiploc_entry(entry);
                }
                Ok(())
            },
            CIFRecord::TIPLOCDelete { tiploc } => {
                let key = trim_bytes(tiploc.as_slice());
                self.remove_tiploc_entry(key.as_slice());
                Ok(())
            },
            CIFRecord::BasicSchedule { transaction_type, train_uid, .. } => {
                if *transaction_type == D {
                    let uid = trim_bytes(train_uid.as_slice());
                    self.remove_schedule_entry(uid.as_slice());
                    Ok(())
                } else {
                    let mut sch = Schedule::new();
                    match bs_record_to_schedule(&mut sch, record) {
                        Ok(_) => {},
                        Err(e) => {
                            return Err(e);
                        },
                    }
                    let uid = copy_bytes(sch.train_uid.as_slice());
                    self.append_schedule_entry_if_present(uid.as_slice(), sch);
                    Ok(())
                }
            },
            _ => Ok(()),
        }
    }

}

/// Folds one record of a bundle into the schedule under construction. On
/// an error the schedule's value is unspecified; the caller discards it.
fn fold_bundle_record(sch: &mut Schedule, record: &CIFRecord) -> (r: Result<
    (),
    ScheduleApplyError,
>)
    ensures
        match r {
            Ok(_) => apply_bundle_record(old(sch)@, record@) == Ok::<
                ScheduleView,
                ApplyErrorView,
            >(final(sch)@),
            Err(e) => apply_bundle_record(old(sch)@, record@) == Err::<
                ScheduleView,
                ApplyErrorView,
            >(e@),
        },
{
    match record {
        CIFRecord::BasicSchedule { .. } => bs_record_to_schedule(sch, record),
        CIFRecord::BasicScheduleExtended { .. } => fold_bx(sch, record),
        CIFRecord::LocationOrigin { .. } => fold_origin(sch, record),
        CIFRecord::LocationIntermediate { .. } => fold_intermediate(sch, record),
        CIFRecord::LocationTerminate { .. } => fold_terminate(sch, record),
        _ => {
            proof {
                assert(apply_bundle_record(sch@, record@) == Ok::<ScheduleView, ApplyErrorView>(
                    sch@,
                ));
            }
            Ok(())
        },
    }
}

/// Folds an extended basic schedule record: the operator fields.
fn fold_bx(sch: &mut Schedule, record: &CIFRecord) -> (r: Result<(), ScheduleApplyError>)
    requires
        record@ is BasicScheduleExtended,
    ensures
        match r {
            Ok(_) => apply_bundle_record(old(sch)@, record@) == Ok::<
                ScheduleView,
                ApplyErrorView,
            >(final(sch)@),
            Err(e) => apply_bundle_record(old(sch)@, record@) == Err::<
                ScheduleView,
                ApplyErrorView,
            >(e@),
        },
{
    match record {
        CIFRecord::BasicScheduleExtended { atoc_code, applicable_timetable_code, .. } => {
            let ghost before = sch@;
            sch.atoc_code = trim_bytes(atoc_code.as_slice());
            sch.subject_to_performance_monitoring = *applicable_timetable_code == Y;
            proof {
                assert(apply_bundle_record(before, record@) matches Ok(s) && s =~= sch@);
            }
            Ok(())
        },
        _ => {
            proof {
                assert(false);
            }
            Err(ScheduleApplyError::InvalidSTPIndicator(0))
        },
    }
}

/// Folds an origin location record: one journey call with departures
/// only.
fn fold_origin(sch: &mut Schedule, record: &CIFRecord) -> (r: Result<(), ScheduleApplyError>)
    requires
        record@ is LocationOrigin,
    ensures
        match r {
            Ok(_) => apply_bundle_record(old(sch)@, record@) == Ok::<
                ScheduleView,
                ApplyErrorView,
            >(final(sch)@),
            Err(e) => apply_bundle_record(old(sch)@, record@) == Err::<
                ScheduleView,
                ApplyErrorView,
            >(e@),
        },
{
    match record {
        CIFRecord::LocationOrigin {
            location,
            scheduled_departure_time,
            public_departure_time,
            platform,
            line,
            activity,
            ..
        } => {
            let ghost before = sch@;
            let dep = match required_time(scheduled_departure_time.as_slice()) {
                Ok(t) => t,
                Err(e) => {
                    return Err(e);
                },
            };
            let pdep = match required_time(public_departure_time.as_slice()) {
                Ok(t) => t,
                Err(e) => {
                    return Err(e);
                },
            };
            let ghost journey_before = sch.journey.deep_view();
            let call = JourneyLocation {
                tiploc: trim_bytes(location.as_slice()),
                arrival_time: None,
                departure_time: Some(dep),
                passing_time: None,
                public_arrival: None,
                public_departure: Some(pdep),
                platform: trim_bytes(platform.as_slice()),
                line: trim_bytes(line.as_slice()),
                activity: trim_bytes(activity.as_slice()),
            };
            let ghost callv = call@;
            sch.journey.push(call);
            proof {
                assert(sch.journey.deep_view() =~= journey_before.push(callv));
                assert(apply_bundle_record(before, record@) matches Ok(s) && s =~= sch@);
            }
            Ok(())
        },
        _ => {
            proof {
                assert(false);
            }
            Err(ScheduleApplyError::InvalidSTPIndicator(0))
        },
    }
}

/// Folds an intermediate location record: one journey call with every
/// time field optional.
fn fold_intermediate(sch: &mut Schedule, record: &CIFRecord) -> (r: Result<
    (),
    ScheduleApplyError,
>)
    requires
        record@ is LocationIntermediate,
    ensures
        match r {
            Ok(_) => apply_bundle_record(old(sch)@, record@) == Ok::<
                ScheduleView,
                ApplyErrorView,
            >(final(sch)@),
            Err(e) => apply_bundle_record(old(sch)@, record@) == Err::<
                ScheduleView,
                ApplyErrorView,
            >(e@),
        },
{
    match record {
        CIFRecord::LocationIntermediate {
            location,
            scheduled_arrival_time,
            scheduled_departure_time,
            scheduled_pass,
            public_arrival_time,
            public_departure_time,
            platform,
            line,
            activity,
            ..
        } => {
            let ghost before = sch@;
            let arr = match optional_time(scheduled_arrival_time.as_slice()) {
                Ok(t) => t,
                Err(e) => {
                    return Err(e);
                },
            };
            let dep = match optional_time(scheduled_departure_time.as_slice()) {
                Ok(t) => t,
                Err(e) => {
                    return Err(e);
                },
            };
            let pass = match optional_time(scheduled_pass.as_slice()) {
                Ok(t) => t,
                Err(e) => {
                    return Err(e);
                },
            };
            let parr = match optional_time(public_arrival_time.as_slice()) {
                Ok(t) => t,
                Err(e) => {
                    return Err(e);
                },
            };
            let pdep = match optional_time(public_departure_time.as_slice()) {
                Ok(t) => t,
                Err(e) => {
                    return Err(e);
                },
            };
            let ghost journey_before = sch.journey.deep_view();
            let call = JourneyLocation {
                tiploc: trim_bytes(location.as_slice()),
                arrival_time: arr,
                departure_time: dep,
                passing_time: pass,
                public_arrival: parr,
                public_departure: pdep,
                platform: trim_bytes(platform.as_slice()),
                line: trim_bytes(line.as_slice()),
                activity: trim_bytes(activity.as_slice()),
            };
            let ghost callv = call@;
            sch.journey.push(call);
            proof {
                assert(sch.journey.deep_view() =~= journey_before.push(callv));
                assert(apply_bundle_record(before, record@) matches Ok(s) && s =~= sch@);
            }
            Ok(())
        },
        _ => {
            proof {
                assert(false);
            }
            Err(ScheduleApplyError::InvalidSTPIndicator(0))
        },
    }
}

/// Folds a terminating location record: one journey call with arrivals
/// only and no line.
fn fold_terminate(sch: &mut Schedule, record: &CIFRecord) -> (r: Result<(), ScheduleApplyError>)
    requires
        record@ is LocationTerminate,
    ensures
        match r {
            Ok(_) => apply_bundle_record(old(sch)@, record@) == Ok::<
                ScheduleView,
                ApplyErrorView,
            >(final(sch)@),
            Err(e) => apply_bundle_record(old(sch)@, record@) == Err::<
                ScheduleView,
                ApplyErrorView,
            >(e@),
        },
{
    match record {
        CIFRecord::LocationTerminate {
            location,
            scheduled_arrival_time,
            public_arrival_time,
            platform,
            activity,
            ..
        } => {
            let ghost before = sch@;
            let arr = match required_time(scheduled_arrival_time.as_slice()) {
                Ok(t) => t,
                Err(e) => {
                    return Err(e);
                },
            };
            let parr = match required_time(public_arrival_time.as_slice()) {
                Ok(t) => t,
                Err(e) => {
                    return Err(e);
                },
            };
            let ghost journey_before = sch.journey.deep_view();
            let call = JourneyLocation {
                tiploc: trim_bytes(location.as_slice()),
                arrival_time: Some(arr),
                departure_time: None,
                passing_time: None,
                public_arrival: Some(parr),
                public_departure: None,
                platform: trim_bytes(platform.as_slice()),
                line: Vec::new(),
                activity: trim_bytes(activity.as_slice()),
            };
            let ghost callv = call@;
            sch.journey.push(call);
            proof {
                assert(callv.line =~= Seq::<u8>::empty());
                assert(sch.journey.deep_view() =~= journey_before.push(callv));
                assert(apply_bundle_record(before, record@) matches Ok(s) && s =~= sch@);
            }
            Ok(())
        },
        _ => {
            proof {
                assert(false);
            }
            Err(ScheduleApplyError::InvalidSTPIndicator(0))
        },
    }
}

impl ScheduleDatabase {
    /// Applies the schedule bundle `records[start..end]`.
    fn apply_record_bundle(&mut self, records: &[CIFRecord], start: usize, end: usize) -> (r:
        Result<(), ScheduleApplyError>)
        requires
            start < end <= records@.len(),
        ensures
            final(self)@ == apply_bundle(
                old(self)@,
                records.deep_view().subrange(start as int, end as int),
            ).0,
            match r {
                Ok(_) => apply_bundle(
                    old(self)@,
                    records.deep_view().subrange(start as int, end as int),
                ).1 is None,
                Err(e) => apply_bundle(
                    old(self)@,
                    records.deep_view().subrange(start as int, end as int),
                ).1 == Some(e@),
            },
    {
        let ghost bundle = records.deep_view().subrange(start as int, end as int);
        let mut sch = Schedule::new();
        let mut k = start;
        proof {
            assert(bundle.subrange(0, 0) =~= Seq::<RecordView>::empty());
        }
        while k < end
            invariant
                start <= k <= end <= records@.len(),
                bundle == records.deep_view().subrange(start as int, end as int),
                records.deep_view().len() == records@.len(),
                schedule_of_bundle(bundle.subrange(0, k - start)) == Ok::<
                    ScheduleView,
                    ApplyErrorView,
                >(sch@),
            decreases end - k,
        {
            let ghost prefix = bundle.subrange(0, k - start);
            proof {
                assert(bundle.subrange(0, k - start + 1).drop_last() =~= prefix);
                assert(bundle.subrange(0, k - start + 1).last() == records.deep_view()[k as int]);
                assert(records.deep_view()[k as int] == records@[k as int].deep_view());
            }
            let record = &records[k];
            match fold_bundle_record(&mut sch, record) {
                Ok(_) => {},
                Err(e) => {
                    proof {
                        lemma_bundle_err_persists(bundle, k - start + 1);
                    }
                    return Err(e);
                },
            }
            k = k + 1;
        }
        proof {
            assert(bundle.subrange(0, end - start) =~= bundle);
        }
        let uid = copy_bytes(sch.train_uid.as_slice());
        self.append_schedule_entry(uid, sch);
        Ok(())
    }

    /// Applies a record stream in order. Records are grouped into bundles
    /// by [`engine_step`]'s rule; each record or bundle that cannot be
    /// applied is reported with the index of its submitting record, and
    /// the walk continues. The result is exactly the error list of the
    /// spec-level engine run.
    pub fn apply_records(&mut self, records: &[CIFRecord]) -> (errors: Vec<
        (usize, ScheduleApplyError),
    >)
        ensures
            final(self)@ == run_engine(
                old(self)@,
                records.deep_view(),
                records@.len() as int,
            ).db,
            errors.deep_view() == run_engine(
                old(self)@,
                records.deep_view(),
                records@.len() as int,
            ).errors,
    {
        let ghost recs = records.deep_view();
        let mut errors: Vec<(usize, ScheduleApplyError)> = Vec::new();
        let mut bundle_start: usize = 0;
        let mut idx: usize = 0;
        proof {
            assert(errors.deep_view() =~= Seq::<(usize, ApplyErrorView)>::empty());
        }
        while idx < records.len()
            invariant
                0 <= idx <= records@.len(),
                bundle_start <= idx,
                recs == records.deep_view(),
                recs.len() == records@.len(),
                run_engine(old(self)@, recs, idx as int) == (EngineState {
                    db: self@,
                    errors: errors.deep_view(),
                    bundle_start: bundle_start as int,
                }),
            decreases records@.len() - idx,
        {
            proof {
                assert(recs[idx as int] == records@[idx as int].deep_view());
            }
            let record = &records[idx];
            let submit = match record {
                CIFRecord::Header { .. } => true,
                CIFRecord::Trailer => true,
                CIFRecord::Association { .. } => true,
                CIFRecord::LocationTerminate { .. } => true,
                CIFRecord::TIPLOCInsert { .. } => true,
                CIFRecord::TIPLOCAmend { .. } => true,
                CIFRecord::TIPLOCDelete { .. } => true,
                CIFRecord::BasicSchedule { transaction_type, stp_indicator, .. } => {
                    *transaction_type == D || *stp_indicator == crate::text::C
                },
                _ => false,
            };
            proof {
                assert(submit == submits(recs[idx as int]));
            }
            if submit {
                let ghost errors_before = errors.deep_view();
                let outcome = if bundle_start == idx {
                    self.apply_single_record(record)
                } else {
                    self.apply_record_bundle(records, bundle_start, idx + 1)
                };
                match outcome {
                    Ok(_) => {},
                    Err(e) => {
                        let ghost ev = e@;
                        errors.push((idx, e));
                        proof {
                            assert(errors.deep_view() =~= errors_before.push((idx, ev)));
                        }
                    },
                }
                bundle_start = idx + 1;
            }
            idx = idx + 1;
            proof {
                assert(run_engine(old(self)@, recs, idx as int) == engine_step(
                    run_engine(old(self)@, recs, idx - 1),
                    recs,
                    idx - 1,
                ));
            }
        }
        errors
    }

    /// Applies every record of a decoded feed, as `apply_records` does.
    pub fn apply_file(&mut self, file: &CIFFile) -> (errors: Vec<(usize, ScheduleApplyError)>)
        ensures
            final(self)@ == run_engine(old(self)@, file@, file@.len() as int).db,
            errors.deep_view() == run_engine(old(self)@, file@, file@.len() as int).errors,
    {
        self.apply_records(file.records().as_slice())
    }
}

} // verus!
