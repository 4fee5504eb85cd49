//! Engine tests: TIPLOC maintenance, schedule bundles, cancellations,
//! deletes, error isolation and the CRS lookup.

use nr_cif::codes::{PowerType, STPIndicator, SeatingClass, TrainCategory, TrainStatus};
use nr_cif::decoder::parse_cif;
use nr_cif::schedule::{Schedule, ScheduleDatabase, ScheduleList};
use nr_cif::errors::ScheduleApplyError;

fn pad(s: &str, w: usize) -> String {
    let mut out = String::from(s);
    while out.len() < w {
        out.push(' ');
    }
    assert!(out.len() == w, "field too long: {s:?}");
    out
}

fn row(s: &str) -> Vec<u8> {
    let padded = pad(s, 80);
    let mut bytes = padded.into_bytes();
    bytes.push(b'\n');
    bytes
}

fn hd_row(date: &str, time: &str, update: char) -> Vec<u8> {
    let s = format!(
        "HD{}{}{}{}{}{}{}{}{}",
        pad("TPS.UDFROC1.PD", 20),
        date,
        time,
        pad("DFROC1A", 7),
        pad("", 7),
        update,
        'A',
        "010624",
        "010625",
    );
    row(&s)
}

fn ti_row(tiploc: &str, crs: &str, description: &str) -> Vec<u8> {
    let s = format!(
        "TI{}{}{}{}{}{}{}{}{}",
        pad(tiploc, 7),
        "00",
        "123456",
        "A",
        pad(description, 26),
        "12345",
        pad("", 4),
        pad(crs, 3),
        pad(description, 16),
    );
    row(&s)
}

fn ta_row(tiploc: &str, crs: &str, description: &str, new_tiploc: &str) -> Vec<u8> {
    let s = format!(
        "TA{}{}{}{}{}{}{}{}{}{}",
        pad(tiploc, 7),
        "00",
        "123456",
        "A",
        pad(description, 26),
        "12345",
        pad("", 4),
        pad(crs, 3),
        pad(description, 16),
        pad(new_tiploc, 7),
    );
    row(&s)
}

fn td_row(tiploc: &str) -> Vec<u8> {
    row(&format!("TD{}", pad(tiploc, 7)))
}

#[allow(clippy::too_many_arguments)]
fn bs_row(tt: char, uid: &str, from: &str, to: &str, days: &str, power: &str, stp: char) -> Vec<u8> {
    let head = format!(
        "BS{}{}{}{}{}{}{}{}{}{}{}{}{}{}{}{}{}{}{}{}{}{}{}",
        tt,
        pad(uid, 6),
        from,
        to,
        days,
        ' ',           // bank holiday running
        'P',           // train status
        "OO",          // train category
        pad("2C04", 4),  // train identity
        pad("", 4),    // headcode
        ' ',           // course indicator
        pad("", 8),    // train service code
        ' ',           // portion id
        pad(power, 3),
        pad("", 4),    // timing load
        "075",         // speed
        pad("", 6),    // operating characteristics
        ' ',           // seating class
        ' ',           // sleepers
        'S',           // reservations
        ' ',           // connection indicator
        pad("", 4),    // catering
        pad("", 4),    // service branding
    );
    let mut s = pad(&head, 79);
    s.push(stp);
    row(&s)
}

fn bx_row(atoc: &str, applicable: char) -> Vec<u8> {
    row(&format!("BX{}{}{}{}", pad("", 4), pad("", 5), pad(atoc, 2), applicable))
}

fn lo_row(location: &str, dep: &str, public_dep: &str, platform: &str, line: &str) -> Vec<u8> {
    row(&format!(
        "LO{}{}{}{}{}{}{}{}{}",
        pad(location, 8),
        pad(dep, 5),
        pad(public_dep, 4),
        pad(platform, 3),
        pad(line, 3),
        pad("", 2),
        pad("", 2),
        pad("TB", 12),
        pad("", 2),
    ))
}

#[allow(clippy::too_many_arguments)]
fn li_row(
    location: &str,
    arr: &str,
    dep: &str,
    pass: &str,
    public_arr: &str,
    public_dep: &str,
    platform: &str,
    line: &str,
) -> Vec<u8> {
    row(&format!(
        "LI{}{}{}{}{}{}{}{}{}{}{}{}{}",
        pad(location, 8),
        pad(arr, 5),
        pad(dep, 5),
        pad(pass, 5),
        pad(public_arr, 4),
        pad(public_dep, 4),
        pad(platform, 3),
        pad(line, 3),
        pad("", 3),
        pad("T", 12),
        pad("", 2),
        pad("", 2),
        pad("", 2),
    ))
}

fn lt_row(location: &str, arr: &str, public_arr: &str, platform: &str) -> Vec<u8> {
    row(&format!(
        "LT{}{}{}{}{}{}",
        pad(location, 8),
        pad(arr, 5),
        pad(public_arr, 4),
        pad(platform, 3),
        pad("", 3),
        pad("TF", 12),
    ))
}

fn feed(rows: Vec<Vec<u8>>) -> Vec<u8> {
    let mut bytes = Vec::new();
    for r in rows {
        bytes.extend(r);
    }
    bytes.extend(row("ZZ"));
    bytes
}

fn apply(db: &mut ScheduleDatabase, bytes: &[u8]) -> Vec<(usize, ScheduleApplyError)> {
    let file = parse_cif(bytes).expect("the feed decodes");
    db.apply_file(&file)
}

fn schedules_of<'a>(db: &'a ScheduleDatabase, uid: &[u8]) -> Option<&'a ScheduleList> {
    db.schedules().iter().find(|l| l.train_uid == uid)
}

fn s3_rows() -> Vec<Vec<u8>> {
    vec![
        bs_row('N', "C11004", "240601", "240601", "1000000", "EMU", 'P'),
        bx_row("SW", 'Y'),
        lo_row("WATRLMN", "1000 ", "1000", "1", "M"),
        li_row("VAUXHLM", "1003 ", "1004 ", "", "1003", "1004", "2", "M"),
        lt_row("CLPHMJ1", "1010H", "1010", "5"),
    ]
}

#[test]
fn test_minimal_apply() {
    let mut db = ScheduleDatabase::new();
    let errors = apply(&mut db, &feed(vec![hd_row("010624", "1234", 'U')]));
    assert!(errors.is_empty());
    assert!(db.tiplocs().is_empty());
    assert!(db.schedules().is_empty());
    let dt = db.extract_date_time();
    assert_eq!(dt.date.year, 2024);
    assert_eq!(dt.date.month, 6);
    assert_eq!(dt.date.day, 1);
    assert_eq!(dt.hour, 12);
    assert_eq!(dt.minute, 34);
}

#[test]
fn test_tiploc_insert_amend_delete() {
    let mut db = ScheduleDatabase::new();

    let errors = apply(&mut db, &feed(vec![ti_row("WATRLMN", "WAT", "WATERLOO MAIN")]));
    assert!(errors.is_empty());
    assert_eq!(db.tiplocs().len(), 1);
    assert_eq!(db.tiplocs()[0].tiploc, b"WATRLMN");
    assert_eq!(db.tiplocs()[0].three_alpha_code, b"WAT");

    let errors = apply(&mut db, &feed(vec![ta_row("WATRLMN", "WAT", "WATERLOO", "WATRLOO")]));
    assert!(errors.is_empty());
    assert_eq!(db.tiplocs().len(), 1);
    assert_eq!(db.tiplocs()[0].tiploc, b"WATRLOO");

    let errors = apply(&mut db, &feed(vec![td_row("WATRLOO")]));
    assert!(errors.is_empty());
    assert!(db.tiplocs().is_empty());
}

#[test]
fn test_tiploc_amend_in_place() {
    let mut db = ScheduleDatabase::new();
    apply(&mut db, &feed(vec![ti_row("WATRLMN", "WAT", "WATERLOO MAIN")]));
    apply(&mut db, &feed(vec![ta_row("WATRLMN", "WAT", "WATERLOO RENAMED", "")]));
    assert_eq!(db.tiplocs().len(), 1);
    assert_eq!(db.tiplocs()[0].tiploc, b"WATRLMN");
    assert_eq!(db.tiplocs()[0].description, b"WATERLOO RENAMED");
}

#[test]
fn test_tiploc_delete_missing_is_noop() {
    let mut db = ScheduleDatabase::new();
    let errors = apply(&mut db, &feed(vec![td_row("NOWHERE")]));
    assert!(errors.is_empty());
    assert!(db.tiplocs().is_empty());
}

#[test]
fn test_full_update_clears_tiplocs() {
    let mut db = ScheduleDatabase::new();
    apply(&mut db, &feed(vec![ti_row("WATRLMN", "WAT", "WATERLOO MAIN")]));
    assert_eq!(db.tiplocs().len(), 1);
    let errors = apply(&mut db, &feed(vec![hd_row("020624", "0100", 'F')]));
    assert!(errors.is_empty());
    assert!(db.tiplocs().is_empty());
}

#[test]
fn test_update_keeps_tiplocs() {
    let mut db = ScheduleDatabase::new();
    apply(&mut db, &feed(vec![ti_row("WATRLMN", "WAT", "WATERLOO MAIN")]));
    apply(&mut db, &feed(vec![hd_row("020624", "0100", 'U')]));
    assert_eq!(db.tiplocs().len(), 1);
}

fn assert_s3_schedule(sched: &Schedule) {
    assert_eq!(sched.train_uid, b"C11004");
    assert_eq!(sched.runs_from.year, 2024);
    assert_eq!(sched.runs_from.month, 6);
    assert_eq!(sched.runs_from.day, 1);
    assert!(sched.days_run.monday);
    assert!(!sched.days_run.sunday);
    assert_eq!(sched.train_status, TrainStatus::PassengerAndParcels);
    assert_eq!(sched.train_category, TrainCategory::OrdinaryPassenger);
    assert_eq!(sched.power_type, PowerType::ElectricMultipleUnit);
    assert_eq!(sched.speed, 75);
    assert_eq!(sched.seating_class, SeatingClass::FirstAndStandard);
    assert_eq!(sched.stp_indicator, STPIndicator::PermanentAssociation);
    assert_eq!(sched.atoc_code, b"SW");
    assert!(sched.subject_to_performance_monitoring);
    assert_eq!(sched.journey.len(), 3);

    let origin = &sched.journey[0];
    assert_eq!(origin.tiploc, b"WATRLMN");
    assert!(origin.arrival_time.is_none());
    let dep = origin.departure_time.expect("the origin departs");
    assert_eq!((dep.hour, dep.minute, dep.half), (10, 0, false));
    assert_eq!(origin.platform, b"1");
    assert_eq!(origin.line, b"M");

    let middle = &sched.journey[1];
    assert_eq!(middle.tiploc, b"VAUXHLM");
    assert!(middle.passing_time.is_none());
    assert!(middle.arrival_time.is_some());
    assert!(middle.departure_time.is_some());

    let terminus = &sched.journey[2];
    assert_eq!(terminus.tiploc, b"CLPHMJ1");
    assert!(terminus.departure_time.is_none());
    assert_eq!(terminus.line, b"");
    let arr = terminus.arrival_time.expect("the terminus arrives");
    assert_eq!((arr.hour, arr.minute, arr.half), (10, 10, true));
}

#[test]
fn test_new_schedule_bundle() {
    let mut db = ScheduleDatabase::new();
    let errors = apply(&mut db, &feed(s3_rows()));
    assert!(errors.is_empty(), "unexpected errors: {errors:?}");
    let list = schedules_of(&db, b"C11004").expect("the schedule is stored");
    assert_eq!(list.schedules.len(), 1);
    assert_s3_schedule(&list.schedules[0]);
}

#[test]
fn test_cancellation_appends() {
    let mut db = ScheduleDatabase::new();
    apply(&mut db, &feed(s3_rows()));
    let mut rows = Vec::new();
    rows.push(bs_row('N', "C11004", "240602", "240602", "0000001", "EMU", 'C'));
    let errors = apply(&mut db, &feed(rows));
    assert!(errors.is_empty(), "unexpected errors: {errors:?}");
    let list = schedules_of(&db, b"C11004").expect("the schedules remain");
    assert_eq!(list.schedules.len(), 2);
    let cancellation = &list.schedules[1];
    assert_eq!(cancellation.stp_indicator, STPIndicator::STPCancellationOfPermanentAssociation);
    assert!(cancellation.journey.is_empty());
    assert!(cancellation.days_run.sunday);
    assert_eq!(cancellation.runs_from.day, 2);
}

#[test]
fn test_cancellation_for_unknown_uid_is_dropped() {
    let mut db = ScheduleDatabase::new();
    let errors = apply(
        &mut db,
        &feed(vec![bs_row('N', "Z99999", "240602", "240602", "0000001", "EMU", 'C')]),
    );
    assert!(errors.is_empty());
    assert!(schedules_of(&db, b"Z99999").is_none());
}

#[test]
fn test_delete_removes_all_variants() {
    let mut db = ScheduleDatabase::new();
    apply(&mut db, &feed(s3_rows()));
    apply(
        &mut db,
        &feed(vec![bs_row('N', "C11004", "240602", "240602", "0000001", "EMU", 'C')]),
    );
    let errors = apply(
        &mut db,
        &feed(vec![bs_row('D', "C11004", "240601", "240601", "1000000", "EMU", 'P')]),
    );
    assert!(errors.is_empty());
    assert!(schedules_of(&db, b"C11004").is_none());
}

#[test]
fn test_revise_missing_is_added_as_new() {
    let mut db = ScheduleDatabase::new();
    let mut rows = s3_rows();
    rows[0] = bs_row('R', "C11004", "240601", "240601", "1000000", "EMU", 'P');
    let errors = apply(&mut db, &feed(rows));
    assert!(errors.is_empty());
    let list = schedules_of(&db, b"C11004").expect("the revision is stored as new");
    assert_eq!(list.schedules.len(), 1);
}

#[test]
fn test_bad_days_run_reports_and_continues() {
    let mut db = ScheduleDatabase::new();
    let mut rows = vec![bs_row('N', "C11004", "240601", "240601", "10000X0", "EMU", 'P')];
    rows.extend(s3_rows().into_iter().skip(1));
    rows.push(ti_row("WATRLMN", "WAT", "WATERLOO MAIN"));
    let errors = apply(&mut db, &feed(rows));
    assert_eq!(errors.len(), 1);
    // The bundle closes at its terminating record, index 4 of the feed.
    assert_eq!(errors[0].0, 4);
    match &errors[0].1 {
        ScheduleApplyError::InvalidDaysRun(field) => assert_eq!(field, b"10000X0"),
        other => panic!("expected an invalid days run, got {other:?}"),
    }
    assert!(schedules_of(&db, b"C11004").is_none());
    // The record after the failed bundle still applies.
    assert_eq!(db.tiplocs().len(), 1);
}

#[test]
fn test_bad_header_date_reports() {
    let mut db = ScheduleDatabase::new();
    let errors = apply(&mut db, &feed(vec![hd_row("320624", "1234", 'U')]));
    assert_eq!(errors.len(), 1);
    match &errors[0].1 {
        ScheduleApplyError::InvalidHeaderDateTime(field) => assert_eq!(field, b"320624"),
        other => panic!("expected an invalid header date, got {other:?}"),
    }
}

#[test]
fn test_crs_lookup() {
    let mut db = ScheduleDatabase::new();
    apply(
        &mut db,
        &feed(vec![
            ti_row("WATRLMN", "WAT", "WATERLOO MAIN"),
            ti_row("CLPHMJ", "CLJ", "CLAPHAM JUNCTION"),
        ]),
    );
    assert_eq!(db.get_crs_from_tiploc(b"WATRLMN"), vec![b"WAT".to_vec()]);
    assert_eq!(db.get_crs_from_tiploc(b"CLPHMJ1"), vec![b"CLJ".to_vec()]);
    assert_eq!(db.get_crs_from_tiploc(b"CLPHMJW"), vec![b"CLJ".to_vec()]);
    assert!(db.get_crs_from_tiploc(b"NOWHERE").is_empty());
}

#[test]
fn test_crs_lookup_trims_padding() {
    let mut db = ScheduleDatabase::new();
    apply(&mut db, &feed(vec![ti_row("WATRLMN", "WAT", "WATERLOO MAIN")]));
    assert_eq!(db.get_crs_from_tiploc(b"WATRLMN "), vec![b"WAT".to_vec()]);
}

#[test]
fn test_days_run_bit_layout() {
    let mut db = ScheduleDatabase::new();
    let mut rows = s3_rows();
    rows[0] = bs_row('N', "C11004", "240601", "240601", "1000000", "EMU", 'P');
    apply(&mut db, &feed(rows));
    let monday_only = &schedules_of(&db, b"C11004").unwrap().schedules[0].days_run;
    assert!(monday_only.monday);
    assert!(
        !(monday_only.tuesday || monday_only.wednesday || monday_only.thursday
            || monday_only.friday || monday_only.saturday || monday_only.sunday)
    );
    assert_eq!(monday_only.bits(), 0b1000000);

    let mut db = ScheduleDatabase::new();
    let mut rows = s3_rows();
    rows[0] = bs_row('N', "C11004", "240601", "240601", "0000001", "EMU", 'P');
    apply(&mut db, &feed(rows));
    let sunday_only = &schedules_of(&db, b"C11004").unwrap().schedules[0].days_run;
    assert!(sunday_only.sunday);
    assert!(
        !(sunday_only.monday || sunday_only.tuesday || sunday_only.wednesday
            || sunday_only.thursday || sunday_only.friday || sunday_only.saturday)
    );
    assert_eq!(sunday_only.bits(), 0b0000001);
}

#[test]
fn test_permanent_schedule_stays_single() {
    // One permanent schedule plus a cancellation: still one permanent row.
    let mut db = ScheduleDatabase::new();
    apply(&mut db, &feed(s3_rows()));
    apply(
        &mut db,
        &feed(vec![bs_row('N', "C11004", "240602", "240602", "0000001", "EMU", 'C')]),
    );
    let list = schedules_of(&db, b"C11004").unwrap();
    let permanent = list
        .schedules
        .iter()
        .filter(|s| s.stp_indicator == STPIndicator::PermanentAssociation)
        .count();
    assert_eq!(permanent, 1);
}

fn cr_row(location: &str) -> Vec<u8> {
    let s = format!(
        "CR{}{}{}{}{}{}{}{}{}{}{}{}{}{}{}{}{}{}{}{}",
        pad(location, 8),
        "XX",
        pad("2C04", 4),
        pad("", 4),
        ' ',
        pad("", 8),
        ' ',
        pad("EMU", 3),
        pad("", 4),
        "100",
        pad("", 6),
        ' ',
        ' ',
        'S',
        ' ',
        pad("", 4),
        pad("", 4),
        pad("", 4),
        pad("", 5),
        pad("", 8),
    );
    row(&s)
}

#[test]
fn test_change_en_route_is_kept_but_not_applied() {
    let mut db = ScheduleDatabase::new();
    let rows = vec![
        bs_row('N', "C11004", "240601", "240601", "1000000", "EMU", 'P'),
        bx_row("SW", 'Y'),
        lo_row("WATRLMN", "1000 ", "1000", "1", "M"),
        cr_row("VAUXHLM"),
        lt_row("CLPHMJ1", "1010H", "1010", "5"),
    ];
    let errors = apply(&mut db, &feed(rows));
    assert!(errors.is_empty(), "unexpected errors: {errors:?}");
    let list = schedules_of(&db, b"C11004").unwrap();
    // The change-en-route record adds no journey call.
    assert_eq!(list.schedules[0].journey.len(), 2);
}

#[test]
fn test_overlay_schedule_joins_list() {
    let mut db = ScheduleDatabase::new();
    apply(&mut db, &feed(s3_rows()));
    let mut rows = s3_rows();
    rows[0] = bs_row('R', "C11004", "240603", "240603", "0010000", "EMU", 'O');
    let errors = apply(&mut db, &feed(rows));
    assert!(errors.is_empty());
    let list = schedules_of(&db, b"C11004").unwrap();
    assert_eq!(list.schedules.len(), 2);
    assert_eq!(
        list.schedules[1].stp_indicator,
        STPIndicator::STPOverlayOfPermanentAssociation
    );
}

#[test]
fn test_intermediate_blank_times_stay_empty() {
    let mut db = ScheduleDatabase::new();
    let rows = vec![
        bs_row('N', "C11004", "240601", "240601", "1000000", "EMU", 'P'),
        lo_row("WATRLMN", "1000 ", "1000", "1", "M"),
        li_row("QUEENST", "", "", "1005H", "", "", "", ""),
        lt_row("CLPHMJ1", "1010H", "1010", "5"),
    ];
    let errors = apply(&mut db, &feed(rows));
    assert!(errors.is_empty(), "unexpected errors: {errors:?}");
    let list = schedules_of(&db, b"C11004").unwrap();
    let passing_call = &list.schedules[0].journey[1];
    assert!(passing_call.arrival_time.is_none());
    assert!(passing_call.departure_time.is_none());
    let pass = passing_call.passing_time.expect("the call passes");
    assert_eq!((pass.hour, pass.minute, pass.half), (10, 5, true));
    assert!(passing_call.public_arrival.is_none());
    assert!(passing_call.public_departure.is_none());
}

#[test]
fn test_bad_journey_time_rejects_bundle() {
    let mut db = ScheduleDatabase::new();
    let rows = vec![
        bs_row('N', "C11004", "240601", "240601", "1000000", "EMU", 'P'),
        lo_row("WATRLMN", "10x0 ", "1000", "1", "M"),
        lt_row("CLPHMJ1", "1010H", "1010", "5"),
    ];
    let errors = apply(&mut db, &feed(rows));
    assert_eq!(errors.len(), 1);
    match &errors[0].1 {
        ScheduleApplyError::InvalidJourneyTime(field) => assert_eq!(field, b"10x0 "),
        other => panic!("expected an invalid journey time, got {other:?}"),
    }
    assert!(schedules_of(&db, b"C11004").is_none());
}

#[test]
fn test_error_kind_names() {
    let e = ScheduleApplyError::InvalidDaysRun(b"10000X0".to_vec());
    assert_eq!(e.kind_name(), "invalid days run in basic schedule record");
    let e = ScheduleApplyError::InvalidSTPIndicator(b'Q');
    assert_eq!(e.kind_name(), "invalid STP indicator in basic schedule record");
}

#[test]
fn test_unknown_category_reports() {
    let mut db = ScheduleDatabase::new();
    let head = format!(
        "BS{}{}{}{}{}{}{}{}",
        'N',
        pad("C11004", 6),
        "240601",
        "240601",
        "1000000",
        ' ',
        'P',
        "QQ",
    );
    let mut s = pad(&head, 79);
    s.push('C');
    let errors = apply(&mut db, &feed(vec![row(&s)]));
    assert_eq!(errors.len(), 1);
    match &errors[0].1 {
        ScheduleApplyError::InvalidTrainCategory(field) => assert_eq!(field, b"QQ"),
        other => panic!("expected an invalid train category, got {other:?}"),
    }
}
