//! Code table, date and time tests: one exact expected value per table,
//! and the context-dependent timing load readings.

use nr_cif::codes::{
    catering_from, operating_characteristics_from, power_type_from, reservations_from,
    seating_class_from, sleepers_from, stp_indicator_from, timing_load_from, train_category_from,
    train_status_from, Catering, OperatingCharacteristic, PowerType, Reservations, STPIndicator,
    SeatingClass, Sleepers, TimingLoad, TrainCategory, TrainStatus,
};
use nr_cif::dates::{parse_date_ddmmyy, parse_date_yymmdd, parse_time_hhmm};
use nr_cif::daysrun::parse_days_run;
use nr_cif::time::JourneyTime;

#[test]
fn test_train_status_table() {
    assert_eq!(train_status_from(b' '), Some(TrainStatus::NotSpecified));
    assert_eq!(train_status_from(b'B'), Some(TrainStatus::Bus));
    assert_eq!(train_status_from(b'F'), Some(TrainStatus::Freight));
    assert_eq!(train_status_from(b'P'), Some(TrainStatus::PassengerAndParcels));
    assert_eq!(train_status_from(b'S'), Some(TrainStatus::Ship));
    assert_eq!(train_status_from(b'T'), Some(TrainStatus::Trip));
    assert_eq!(train_status_from(b'1'), Some(TrainStatus::STPPassengerAndParcels));
    assert_eq!(train_status_from(b'5'), Some(TrainStatus::STPBus));
    assert_eq!(train_status_from(b'X'), None);
}

#[test]
fn test_train_category_table() {
    assert_eq!(train_category_from(b' ', b' '), Some(TrainCategory::NotSpecified));
    assert_eq!(train_category_from(b'O', b'O'), Some(TrainCategory::OrdinaryPassenger));
    assert_eq!(train_category_from(b'X', b'X'), Some(TrainCategory::ExpressPassenger));
    assert_eq!(train_category_from(b'S', b'S'), Some(TrainCategory::Ship));
    assert_eq!(train_category_from(b'E', b'E'), Some(TrainCategory::EmptyCoachingStock));
    assert_eq!(train_category_from(b'Z', b'Z'), Some(TrainCategory::LightLocomotive));
    assert_eq!(train_category_from(b'H', b'8'), Some(TrainCategory::RfDEuropean));
    assert_eq!(train_category_from(b'B', b'7'), Some(TrainCategory::PetroleumProducts));
    assert_eq!(
        train_category_from(b'H', b'6'),
        Some(TrainCategory::RfDEuropeanChannelTunnelJointVenture)
    );
    assert_eq!(train_category_from(b'Q', b'Q'), None);
}

#[test]
fn test_power_type_table() {
    assert_eq!(power_type_from(b""), Some(PowerType::NotSpecified));
    assert_eq!(power_type_from(b"D"), Some(PowerType::Diesel));
    assert_eq!(power_type_from(b"DEM"), Some(PowerType::DieselElectricMultipleUnit));
    assert_eq!(power_type_from(b"DMU"), Some(PowerType::DieselMechanicalMultipleUnit));
    assert_eq!(power_type_from(b"E"), Some(PowerType::Electric));
    assert_eq!(power_type_from(b"ED"), Some(PowerType::ElectroDiesel));
    assert_eq!(power_type_from(b"EML"), Some(PowerType::EMUPlusLocomotive));
    assert_eq!(power_type_from(b"EMU"), Some(PowerType::ElectricMultipleUnit));
    assert_eq!(power_type_from(b"HST"), Some(PowerType::HighSpeedTrain));
    assert_eq!(power_type_from(b"XYZ"), None);
}

#[test]
fn test_timing_load_dmu() {
    let p = PowerType::DieselMechanicalMultipleUnit;
    assert_eq!(timing_load_from(p, b""), Some(TimingLoad::NotSpecified));
    assert_eq!(timing_load_from(p, b"69"), Some(TimingLoad::Class17201721Or1722));
    assert_eq!(timing_load_from(p, b"A"), Some(TimingLoad::Class141To144));
    assert_eq!(timing_load_from(p, b"E"), Some(TimingLoad::Class158168170Or175));
    assert_eq!(timing_load_from(p, b"D3"), Some(TimingLoad::DMUPowerTwin));
    assert_eq!(timing_load_from(p, b"390"), Some(TimingLoad::SpecificClass(390)));
    assert_eq!(timing_load_from(p, b"Q"), None);
}

#[test]
fn test_timing_load_emu() {
    let p = PowerType::ElectricMultipleUnit;
    assert_eq!(timing_load_from(p, b"AT"), Some(TimingLoad::AcceleratedTimings));
    assert_eq!(timing_load_from(p, b"E"), Some(TimingLoad::Class458));
    assert_eq!(timing_load_from(p, b"0"), Some(TimingLoad::Class380));
    assert_eq!(timing_load_from(p, b"506"), Some(TimingLoad::Class3501110MPH));
    assert_eq!(timing_load_from(p, b"375"), Some(TimingLoad::SpecificClass(375)));
    assert_eq!(timing_load_from(p, b"XX"), None);
}

#[test]
fn test_timing_load_hauled() {
    assert_eq!(
        timing_load_from(PowerType::Electric, b"325"),
        Some(TimingLoad::Class325ElectricParcelsUnit)
    );
    assert_eq!(timing_load_from(PowerType::Diesel, b"325"), Some(TimingLoad::LoadInTonnes(325)));
    assert_eq!(timing_load_from(PowerType::Diesel, b"575"), Some(TimingLoad::LoadInTonnes(575)));
    assert_eq!(timing_load_from(PowerType::ElectroDiesel, b""), Some(TimingLoad::NotSpecified));
    assert_eq!(timing_load_from(PowerType::Diesel, b"ABC"), None);
    // A value past the field's type is an error, not a truncation.
    assert_eq!(timing_load_from(PowerType::Diesel, b"99999"), None);
}

#[test]
fn test_timing_load_other_powers() {
    assert_eq!(
        timing_load_from(PowerType::HighSpeedTrain, b"ANY?"),
        Some(TimingLoad::NotSpecified)
    );
    assert_eq!(timing_load_from(PowerType::NotSpecified, b"123"), Some(TimingLoad::NotSpecified));
}

#[test]
fn test_operating_characteristics() {
    let r = operating_characteristics_from(b"B P   ").unwrap();
    assert_eq!(
        r,
        vec![OperatingCharacteristic::VacuumBraked, OperatingCharacteristic::PushPullTrain]
    );
    assert_eq!(operating_characteristics_from(b"Q     ").unwrap(), vec![
        OperatingCharacteristic::RunsAsRequired
    ]);
    assert_eq!(operating_characteristics_from(b"BAD   "), Err(b'A'));
}

#[test]
fn test_catering_codes() {
    assert_eq!(catering_from(b"CT  ").unwrap(), vec![
        Catering::BuffetService,
        Catering::TrolleyService,
    ]);
    assert_eq!(catering_from(b"    ").unwrap(), Vec::<Catering>::new());
    assert_eq!(catering_from(b"CX  "), Err(b'X'));
}

#[test]
fn test_seating_sleepers_reservations() {
    assert_eq!(seating_class_from(b' '), Some(SeatingClass::FirstAndStandard));
    assert_eq!(seating_class_from(b'B'), Some(SeatingClass::FirstAndStandard));
    assert_eq!(seating_class_from(b'S'), Some(SeatingClass::StandardOnly));
    assert_eq!(seating_class_from(b'Z'), None);

    assert_eq!(sleepers_from(b'B'), Some(Sleepers::FirstAndStandard));
    assert_eq!(sleepers_from(b'F'), Some(Sleepers::FirstOnly));
    assert_eq!(sleepers_from(b'S'), Some(Sleepers::StandardOnly));
    assert_eq!(sleepers_from(b' '), Some(Sleepers::NotSpecified));
    assert_eq!(sleepers_from(b'Q'), None);

    assert_eq!(reservations_from(b'A'), Some(Reservations::Compulsory));
    assert_eq!(reservations_from(b'E'), Some(Reservations::CompulsoryForBicycles));
    assert_eq!(reservations_from(b'R'), Some(Reservations::Recommended));
    assert_eq!(reservations_from(b'S'), Some(Reservations::Possible));
    assert_eq!(reservations_from(b' '), Some(Reservations::NotSpecified));
    assert_eq!(reservations_from(b'Q'), None);
}

#[test]
fn test_stp_indicator_table() {
    assert_eq!(
        stp_indicator_from(b'C'),
        Some(STPIndicator::STPCancellationOfPermanentAssociation)
    );
    assert_eq!(stp_indicator_from(b'N'), Some(STPIndicator::NewSTPAssociation));
    assert_eq!(stp_indicator_from(b'O'), Some(STPIndicator::STPOverlayOfPermanentAssociation));
    assert_eq!(stp_indicator_from(b'P'), Some(STPIndicator::PermanentAssociation));
    assert_eq!(stp_indicator_from(b'Q'), None);
}

#[test]
fn test_journey_time_parsing() {
    let t = JourneyTime::parse(b"1000 ").unwrap();
    assert_eq!((t.hour(), t.minute(), t.half()), (10, 0, false));
    let t = JourneyTime::parse(b"1010H").unwrap();
    assert_eq!((t.hour(), t.minute(), t.half()), (10, 10, true));
    let t = JourneyTime::parse(b"2359").unwrap();
    assert_eq!((t.hour, t.minute, t.half), (23, 59, false));
    assert_eq!(JourneyTime::parse(b"10A0 "), None);
    assert_eq!(JourneyTime::parse(b"1000X"), None);
    assert_eq!(JourneyTime::parse(b"2400"), None);
    assert_eq!(JourneyTime::parse(b"1060"), None);
    assert_eq!(JourneyTime::parse(b"100"), None);
}

#[test]
fn test_date_parsing() {
    let d = parse_date_yymmdd(b"240601").unwrap();
    assert_eq!((d.year, d.month, d.day), (2024, 6, 1));
    let d = parse_date_yymmdd(b"690101").unwrap();
    assert_eq!(d.year, 1969);
    let d = parse_date_yymmdd(b"680101").unwrap();
    assert_eq!(d.year, 2068);
    // 2024 is a leap year; 2023 is not.
    assert!(parse_date_yymmdd(b"240229").is_some());
    assert_eq!(parse_date_yymmdd(b"230229"), None);
    assert_eq!(parse_date_yymmdd(b"241301"), None);
    assert_eq!(parse_date_yymmdd(b"240600"), None);
    assert_eq!(parse_date_yymmdd(b"24060"), None);

    let d = parse_date_ddmmyy(b"310524").unwrap();
    assert_eq!((d.year, d.month, d.day), (2024, 5, 31));
    assert_eq!(parse_date_ddmmyy(b"320524"), None);
}

#[test]
fn test_time_parsing() {
    assert_eq!(parse_time_hhmm(b"2359"), Some((23, 59)));
    assert_eq!(parse_time_hhmm(b"0000"), Some((0, 0)));
    assert_eq!(parse_time_hhmm(b"2400"), None);
    assert_eq!(parse_time_hhmm(b"0060"), None);
    assert_eq!(parse_time_hhmm(b"12a4"), None);
}

#[test]
fn test_days_run_parsing() {
    let d = parse_days_run(b"1000000").unwrap();
    assert!(d.monday && !d.tuesday && !d.sunday);
    assert_eq!(d.bits(), 64);
    let d = parse_days_run(b"0000001").unwrap();
    assert!(d.sunday && !d.monday);
    assert_eq!(d.bits(), 1);
    let d = parse_days_run(b"1111100").unwrap();
    assert_eq!(d.bits(), 0b1111100);
    assert_eq!(parse_days_run(b"10000X0"), None);
    assert_eq!(parse_days_run(b"100000"), None);
}
