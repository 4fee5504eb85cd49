//! The closed code tables of the CIF format.
//!
//! Every enumeration here mirrors one fixed table of the format: train
//! status, train category, power type, timing load, operating
//! characteristics, seating class, sleepers, reservations, catering and the
//! STP indicator. Each table has a spec function giving the exact
//! byte-to-variant mapping; unknown codes map to `None` or to the offending
//! byte and become typed apply errors in the engine.

use vstd::prelude::*;

use crate::text::{
    parse_number, A, B, C, D, E, F, G, H, I, J, L, M, N, N0, N1, N2, N3, N4, N5, N6, N7, N8, N9,
    O, P, Q, R, S, SP, T, U, V, W, X, Y, Z,
};

verus! {

/// Whether a service runs on bank holidays.
#[derive(Debug, Clone, Copy, PartialEq, Eq, Structural)]
pub enum BankHolidayRunning {
    RunsNormally,
    NotOnSpecificBankHolidayMondays,
    NotOnGlasgowBankHolidays,
}

/// The train status byte of a basic schedule record.
#[derive(Debug, Clone, Copy, PartialEq, Eq, Structural)]
pub enum TrainStatus {
    Bus,
    Freight,
    PassengerAndParcels,
    Ship,
    Trip,
    STPPassengerAndParcels,
    STPFreight,
    STPTrip,
    STPShip,
    STPBus,
    NotSpecified,
}

/// The two-byte train category of a basic schedule record.
#[derive(Debug, Clone, Copy, PartialEq, Eq, Structural)]
pub enum TrainCategory {
    NotSpecified,
    LondonUnderground,
    UnadvertisedOrdinaryPassenger,
    OrdinaryPassenger,
    StaffTrain,
    Mixed,
    ChannelTunnel,
    Sleeper,
    International,
    Motorail,
    UnadvertisedExpress,
    ExpressPassenger,
    SleeperDomestic,
    BusReplacementDueToEngineering,
    BusWTTService,
    Ship,
    EmptyCoachingStock,
    ECSLondonUnderground,
    ECSAndStaff,
    Postal,
    PostOfficeControlledParcels,
    Parcels,
    EmptyNPCCS,
    Departmental,
    CivilEngineer,
    MechanicalAndElectricalEngineer,
    Stores,
    Test,
    SignalAndTelecommunicationsEngineer,
    LocomotiveAndBrakeVan,
    LightLocomotive,
    RfDAutomotiveComponents,
    RfDAutomotiveVehicles,
    RfDEdibleProducts,
    RfDIndustrialMinerals,
    RfDChemicals,
    RfDBuildingMaterials,
    RfDGeneralMerchandise,
    RfDEuropean,
    RfDFreightlinerContracts,
    RfDFreightlinerOther,
    CoalDistributive,
    CoalElectricityMGR,
    CoalOtherAndNuclear,
    Metals,
    Aggregates,
    DomesticAndIndustrialWaste,
    BuildingMaterials,
    PetroleumProducts,
    RfDEuropeanChannelTunnelMixed,
    RfDEuropeanChannelTunnelIntermodal,
    RfDEuropeanChannelTunnelAutomotive,
    RfDEuropeanChannelTunnelContractServices,
    RfDEuropeanChannelTunnelHaulmark,
    RfDEuropeanChannelTunnelJointVenture,
}

/// The power type of a basic schedule record.
#[derive(Debug, Clone, Copy, PartialEq, Eq, Structural)]
pub enum PowerType {
    Diesel,
    DieselElectricMultipleUnit,
    DieselMechanicalMultipleUnit,
    Electric,
    ElectroDiesel,
    EMUPlusLocomotive,
    ElectricMultipleUnit,
    HighSpeedTrain,
    NotSpecified,
}

/// An operating characteristic of a service.
#[derive(Debug, Clone, Copy, PartialEq, Eq, Structural)]
pub enum OperatingCharacteristic {
    VacuumBraked,
    TimedAt100MPH,
    DOOCoachingStockTrains,
    ConveysMark4Coaches,
    GuardRequired,
    TimedAt110MPH,
    PushPullTrain,
    RunsAsRequired,
    AirConditionedWithPASystem,
    SteamHeated,
    RunsToTerminalsAsRequired,
    MayConveyTrafficToSB1CGauge,
}

/// The timing load of a service; its reading depends on the power type.
#[derive(Debug, Clone, Copy, PartialEq, Eq, Structural)]
pub enum TimingLoad {
    /// Unspecified.
    NotSpecified,
    /// Class 170/0, 172/1, 172/2.
    Class17201721Or1722,
    /// Class 141 to 144.
    Class141To144,
    /// Class 158, 168, 170 or 175.
    Class158168170Or175,
    /// Class 165/0.
    Class1650,
    /// Class 150, 153, 155 or 156.
    Class150153155Or156,
    /// Class 165/1 or 166.
    Class1651Or166,
    /// Class 220 or 221.
    Class220Or221,
    /// Class 159.
    Class159,
    /// DMU (power car and trailer).
    DMUPowerCarTrailer,
    /// DMU (two power cars and trailer).
    DMU2PowerCarsTrailer,
    /// DMU (power twin).
    DMUPowerTwin,
    /// Accelerated timings EMU.
    AcceleratedTimings,
    /// Class 458.
    Class458,
    /// Class 380.
    Class380,
    /// Class 350/1 at 110 mph.
    Class3501110MPH,
    /// Class 325 electric parcels unit.
    Class325ElectricParcelsUnit,
    /// A specific multiple-unit class.
    SpecificClass(u16),
    /// A hauled load in tonnes.
    LoadInTonnes(u16),
}

/// The seating classes available on a service.
#[derive(Debug, Clone, Copy, PartialEq, Eq, Structural)]
pub enum SeatingClass {
    FirstAndStandard,
    StandardOnly,
    NotSpecified,
}

/// The sleeper accommodation of a service.
#[derive(Debug, Clone, Copy, PartialEq, Eq, Structural)]
pub enum Sleepers {
    FirstAndStandard,
    FirstOnly,
    StandardOnly,
    NotSpecified,
}

/// The reservation rule of a service.
#[derive(Debug, Clone, Copy, PartialEq, Eq, Structural)]
pub enum Reservations {
    Compulsory,
    CompulsoryForBicycles,
    Recommended,
    Possible,
    NotSpecified,
}

/// A catering facility of a service.
#[derive(Debug, Clone, Copy, PartialEq, Eq, Structural)]
pub enum Catering {
    NotSpecified,
    BuffetService,
    RestaurantCarForFirstClass,
    HotFood,
    MealForFirstClass,
    WheelchairReservations,
    Restaurant,
    TrolleyService,
}

/// The short-term-planning lifecycle stage of a schedule or association.
#[derive(Debug, Clone, Copy, PartialEq, Eq, Structural)]
pub enum STPIndicator {
    NewSTPAssociation,
    STPCancellationOfPermanentAssociation,
    STPOverlayOfPermanentAssociation,
    PermanentAssociation,
}

/// The bank-holiday-running byte: `X` and `G` restrict running, everything
/// else means the service runs normally.
pub open spec fn bank_holiday_running_of(b: u8) -> BankHolidayRunning {
    if b == X {
        BankHolidayRunning::NotOnSpecificBankHolidayMondays
    } else if b == G {
        BankHolidayRunning::NotOnGlasgowBankHolidays
    } else {
        BankHolidayRunning::RunsNormally
    }
}

/// Reads the bank-holiday-running byte.
pub fn bank_holiday_running_from(b: u8) -> (r: BankHolidayRunning)
    ensures
        r == bank_holiday_running_of(b),
{
    if b == X {
        BankHolidayRunning::NotOnSpecificBankHolidayMondays
    } else if b == G {
        BankHolidayRunning::NotOnGlasgowBankHolidays
    } else {
        BankHolidayRunning::RunsNormally
    }
}

/// The train status table.
pub open spec fn train_status_of(b: u8) -> Option<TrainStatus> {
    if b == SP {
        Some(TrainStatus::NotSpecified)
    } else if b == B {
        Some(TrainStatus::Bus)
    } else if b == F {
        Some(TrainStatus::Freight)
    } else if b == P {
        Some(TrainStatus::PassengerAndParcels)
    } else if b == S {
        Some(TrainStatus::Ship)
    } else if b == T {
        Some(TrainStatus::Trip)
    } else if b == N1 {
        Some(TrainStatus::STPPassengerAndParcels)
    } else if b == N2 {
        Some(TrainStatus::STPFreight)
    } else if b == N3 {
        Some(TrainStatus::STPTrip)
    } else if b == N4 {
        Some(TrainStatus::STPShip)
    } else if b == N5 {
        Some(TrainStatus::STPBus)
    } else {
        None
    }
}

/// Reads the train status byte.
pub fn train_status_from(b: u8) -> (r: Option<TrainStatus>)
    ensures
        r == train_status_of(b),
{
    if b == SP {
        Some(TrainStatus::NotSpecified)
    } else if b == B {
        Some(TrainStatus::Bus)
    } else if b == F {
        Some(TrainStatus::Freight)
    } else if b == P {
        Some(TrainStatus::PassengerAndParcels)
    } else if b == S {
        Some(TrainStatus::Ship)
    } else if b == T {
        Some(TrainStatus::Trip)
    } else if b == N1 {
        Some(TrainStatus::STPPassengerAndParcels)
    } else if b == N2 {
        Some(TrainStatus::STPFreight)
    } else if b == N3 {
        Some(TrainStatus::STPTrip)
    } else if b == N4 {
        Some(TrainStatus::STPShip)
    } else if b == N5 {
        Some(TrainStatus::STPBus)
    } else {
        None
    }
}

/// The two-byte train category table.
pub open spec fn train_category_of(a: u8, b: u8) -> Option<TrainCategory> {
    if a == SP && b == SP {
        Some(TrainCategory::NotSpecified)
    } else if a == O && b == L {
        Some(TrainCategory::LondonUnderground)
    } else if a == O && b == U {
        Some(TrainCategory::UnadvertisedOrdinaryPassenger)
    } else if a == O && b == O {
        Some(TrainCategory::OrdinaryPassenger)
    } else if a == O && b == S {
        Some(TrainCategory::StaffTrain)
    } else if a == O && b == W {
        Some(TrainCategory::Mixed)
    } else if a == X && b == C {
        Some(TrainCategory::ChannelTunnel)
    } else if a == X && b == D {
        Some(TrainCategory::Sleeper)
    } else if a == X && b == I {
        Some(TrainCategory::International)
    } else if a == X && b == R {
        Some(TrainCategory::Motorail)
    } else if a == X && b == U {
        Some(TrainCategory::UnadvertisedExpress)
    } else if a == X && b == X {
        Some(TrainCategory::ExpressPassenger)
    } else if a == X && b == Z {
        Some(TrainCategory::SleeperDomestic)
    } else if a == B && b == R {
        Some(TrainCategory::BusReplacementDueToEngineering)
    } else if a == B && b == S {
        Some(TrainCategory::BusWTTService)
    } else if a == S && b == S {
        Some(TrainCategory::Ship)
    } else if a == E && b == E {
        Some(TrainCategory::EmptyCoachingStock)
    } else if a == E && b == L {
        Some(TrainCategory::ECSLondonUnderground)
    } else if a == E && b == S {
        Some(TrainCategory::ECSAndStaff)
    } else if a == J && b == J {
        Some(TrainCategory::Postal)
    } else if a == P && b == M {
        Some(TrainCategory::PostOfficeControlledParcels)
    } else if a == P && b == P {
        Some(TrainCategory::Parcels)
    } else if a == P && b == V {
        Some(TrainCategory::EmptyNPCCS)
    } else if a == D && b == D {
        Some(TrainCategory::Departmental)
    } else if a == D && b == H {
        Some(TrainCategory::CivilEngineer)
    } else if a == D && b == I {
        Some(TrainCategory::MechanicalAndElectricalEngineer)
    } else if a == D && b == Q {
        Some(TrainCategory::Stores)
    } else if a == D && b == T {
        Some(TrainCategory::Test)
    } else if a == D && b == Y {
        Some(TrainCategory::SignalAndTelecommunicationsEngineer)
    } else if a == Z && b == B {
        Some(TrainCategory::LocomotiveAndBrakeVan)
    } else if a == Z && b == Z {
        Some(TrainCategory::LightLocomotive)
    } else if a == J && b == N2 {
        Some(TrainCategory::RfDAutomotiveComponents)
    } else if a == H && b == N2 {
        Some(TrainCategory::RfDAutomotiveVehicles)
    } else if a == J && b == N3 {
        Some(TrainCategory::RfDEdibleProducts)
    } else if a == J && b == N4 {
        Some(TrainCategory::RfDIndustrialMinerals)
    } else if a == J && b == N5 {
        Some(TrainCategory::RfDChemicals)
    } else if a == J && b == N6 {
        Some(TrainCategory::RfDBuildingMaterials)
    } else if a == J && b == N8 {
        Some(TrainCategory::RfDGeneralMerchandise)
    } else if a == H && b == N8 {
        Some(TrainCategory::RfDEuropean)
    } else if a == J && b == N9 {
        Some(TrainCategory::RfDFreightlinerContracts)
    } else if a == H && b == N9 {
        Some(TrainCategory::RfDFreightlinerOther)
    } else if a == A && b == N0 {
        Some(TrainCategory::CoalDistributive)
    } else if a == E && b == N0 {
        Some(TrainCategory::CoalElectricityMGR)
    } else if a == B && b == N0 {
        Some(TrainCategory::CoalOtherAndNuclear)
    } else if a == B && b == N1 {
        Some(TrainCategory::Metals)
    } else if a == B && b == N4 {
        Some(TrainCategory::Aggregates)
    } else if a == B && b == N5 {
        Some(TrainCategory::DomesticAndIndustrialWaste)
    } else if a == B && b == N6 {
        Some(TrainCategory::BuildingMaterials)
    } else if a == B && b == N7 {
        Some(TrainCategory::PetroleumProducts)
    } else if a == H && b == N0 {
        Some(TrainCategory::RfDEuropeanChannelTunnelMixed)
    } else if a == H && b == N1 {
        Some(TrainCategory::RfDEuropeanChannelTunnelIntermodal)
    } else if a == H && b == N3 {
        Some(TrainCategory::RfDEuropeanChannelTunnelAutomotive)
    } else if a == H && b == N4 {
        Some(TrainCategory::RfDEuropeanChannelTunnelContractServices)
    } else if a == H && b == N5 {
        Some(TrainCategory::RfDEuropeanChannelTunnelHaulmark)
    } else if a == H && b == N6 {
        Some(TrainCategory::RfDEuropeanChannelTunnelJointVenture)
    } else {
        None
    }
}

/// Reads the two train category bytes.
pub fn train_category_from(a: u8, b: u8) -> (r: Option<TrainCategory>)
    ensures
        r == train_category_of(a, b),
{
    if a == SP && b == SP {
        Some(TrainCategory::NotSpecified)
    } else if a == O && b == L {
        Some(TrainCategory::LondonUnderground)
    } else if a == O && b == U {
        Some(TrainCategory::UnadvertisedOrdinaryPassenger)
    } else if a == O && b == O {
        Some(TrainCategory::OrdinaryPassenger)
    } else if a == O && b == S {
        Some(TrainCategory::StaffTrain)
    } else if a == O && b == W {
        Some(TrainCategory::Mixed)
    } else if a == X && b == C {
        Some(TrainCategory::ChannelTunnel)
    } else if a == X && b == D {
        Some(TrainCategory::Sleeper)
    } else if a == X && b == I {
        Some(TrainCategory::International)
    } else if a == X && b == R {
        Some(TrainCategory::Motorail)
    } else if a == X && b == U {
        Some(TrainCategory::UnadvertisedExpress)
    } else if a == X && b == X {
        Some(TrainCategory::ExpressPassenger)
    } else if a == X && b == Z {
        Some(TrainCategory::SleeperDomestic)
    } else if a == B && b == R {
        Some(TrainCategory::BusReplacementDueToEngineering)
    } else if a == B && b == S {
        Some(TrainCategory::BusWTTService)
    } else if a == S && b == S {
        Some(TrainCategory::Ship)
    } else if a == E && b == E {
        Some(TrainCategory::EmptyCoachingStock)
    } else if a == E && b == L {
        Some(TrainCategory::ECSLondonUnderground)
    } else if a == E && b == S {
        Some(TrainCategory::ECSAndStaff)
    } else if a == J && b == J {
        Some(TrainCategory::Postal)
    } else if a == P && b == M {
        Some(TrainCategory::PostOfficeControlledParcels)
    } else if a == P && b == P {
        Some(TrainCategory::Parcels)
    } else if a == P && b == V {
        Some(TrainCategory::EmptyNPCCS)
    } else if a == D && b == D {
        Some(TrainCategory::Departmental)
    } else if a == D && b == H {
        Some(TrainCategory::CivilEngineer)
    } else if a == D && b == I {
        Some(TrainCategory::MechanicalAndElectricalEngineer)
    } else if a == D && b == Q {
        Some(TrainCategory::Stores)
    } else if a == D && b == T {
        Some(TrainCategory::Test)
    } else if a == D && b == Y {
        Some(TrainCategory::SignalAndTelecommunicationsEngineer)
    } else if a == Z && b == B {
        Some(TrainCategory::LocomotiveAndBrakeVan)
    } else if a == Z && b == Z {
        Some(TrainCategory::LightLocomotive)
    } else if a == J && b == N2 {
        Some(TrainCategory::RfDAutomotiveComponents)
    } else if a == H && b == N2 {
        Some(TrainCategory::RfDAutomotiveVehicles)
    } else if a == J && b == N3 {
        Some(TrainCategory::RfDEdibleProducts)
    } else if a == J && b == N4 {
        Some(TrainCategory::RfDIndustrialMinerals)
    } else if a == J && b == N5 {
        Some(TrainCategory::RfDChemicals)
    } else if a == J && b == N6 {
        Some(TrainCategory::RfDBuildingMaterials)
    } else if a == J && b == N8 {
        Some(TrainCategory::RfDGeneralMerchandise)
    } else if a == H && b == N8 {
        Some(TrainCategory::RfDEuropean)
    } else if a == J && b == N9 {
        Some(TrainCategory::RfDFreightlinerContracts)
    } else if a == H && b == N9 {
        Some(TrainCategory::RfDFreightlinerOther)
    } else if a == A && b == N0 {
        Some(TrainCategory::CoalDistributive)
    } else if a == E && b == N0 {
        Some(TrainCategory::CoalElectricityMGR)
    } else if a == B && b == N0 {
        Some(TrainCategory::CoalOtherAndNuclear)
    } else if a == B && b == N1 {
        Some(TrainCategory::Metals)
    } else if a == B && b == N4 {
        Some(TrainCategory::Aggregates)
    } else if a == B && b == N5 {
        Some(TrainCategory::DomesticAndIndustrialWaste)
    } else if a == B && b == N6 {
        Some(TrainCategory::BuildingMaterials)
    } else if a == B && b == N7 {
        Some(TrainCategory::PetroleumProducts)
    } else if a == H && b == N0 {
        Some(TrainCategory::RfDEuropeanChannelTunnelMixed)
    } else if a == H && b == N1 {
        Some(TrainCategory::RfDEuropeanChannelTunnelIntermodal)
    } else if a == H && b == N3 {
        Some(TrainCategory::RfDEuropeanChannelTunnelAutomotive)
    } else if a == H && b == N4 {
        Some(TrainCategory::RfDEuropeanChannelTunnelContractServices)
    } else if a == H && b == N5 {
        Some(TrainCategory::RfDEuropeanChannelTunnelHaulmark)
    } else if a == H && b == N6 {
        Some(TrainCategory::RfDEuropeanChannelTunnelJointVenture)
    } else {
        None
    }
}

/// The power type table, over the trimmed field.
pub open spec fn power_type_of(t: Seq<u8>) -> Option<PowerType> {
    if t.len() == 0 {
        Some(PowerType::NotSpecified)
    } else if t.len() == 1 && t[0] == D {
        Some(PowerType::Diesel)
    } else if t.len() == 3 && t[0] == D && t[1] == E && t[2] == M {
        Some(PowerType::DieselElectricMultipleUnit)
    } else if t.len() == 3 && t[0] == D && t[1] == M && t[2] == U {
        Some(PowerType::DieselMechanicalMultipleUnit)
    } else if t.len() == 1 && t[0] == E {
        Some(PowerType::Electric)
    } else if t.len() == 2 && t[0] == E && t[1] == D {
        Some(PowerType::ElectroDiesel)
    } else if t.len() == 3 && t[0] == E && t[1] == M && t[2] == L {
        Some(PowerType::EMUPlusLocomotive)
    } else if t.len() == 3 && t[0] == E && t[1] == M && t[2] == U {
        Some(PowerType::ElectricMultipleUnit)
    } else if t.len() == 3 && t[0] == H && t[1] == S && t[2] == T {
        Some(PowerType::HighSpeedTrain)
    } else {
        None
    }
}

/// Reads the trimmed power type field.
pub fn power_type_from(t: &[u8]) -> (r: Option<PowerType>)
    ensures
        r == power_type_of(t@),
{
    if t.len() == 0 {
        Some(PowerType::NotSpecified)
    } else if t.len() == 1 && t[0] == D {
        Some(PowerType::Diesel)
    } else if t.len() == 3 && t[0] == D && t[1] == E && t[2] == M {
        Some(PowerType::DieselElectricMultipleUnit)
    } else if t.len() == 3 && t[0] == D && t[1] == M && t[2] == U {
        Some(PowerType::DieselMechanicalMultipleUnit)
    } else if t.len() == 1 && t[0] == E {
        Some(PowerType::Electric)
    } else if t.len() == 2 && t[0] == E && t[1] == D {
        Some(PowerType::ElectroDiesel)
    } else if t.len() == 3 && t[0] == E && t[1] == M && t[2] == L {
        Some(PowerType::EMUPlusLocomotive)
    } else if t.len() == 3 && t[0] == E && t[1] == M && t[2] == U {
        Some(PowerType::ElectricMultipleUnit)
    } else if t.len() == 3 && t[0] == H && t[1] == S && t[2] == T {
        Some(PowerType::HighSpeedTrain)
    } else {
        None
    }
}

/// The timing load table for DMU power types, over the trimmed field.
pub open spec fn dmu_timing_load_of(t: Seq<u8>) -> Option<TimingLoad> {
    if t.len() == 0 {
        Some(TimingLoad::NotSpecified)
    } else if t.len() == 2 && t[0] == N6 && t[1] == N9 {
        Some(TimingLoad::Class17201721Or1722)
    } else if t.len() == 1 && t[0] == A {
        Some(TimingLoad::Class141To144)
    } else if t.len() == 1 && t[0] == E {
        Some(TimingLoad::Class158168170Or175)
    } else if t.len() == 1 && t[0] == N {
        Some(TimingLoad::Class1650)
    } else if t.len() == 1 && t[0] == S {
        Some(TimingLoad::Class150153155Or156)
    } else if t.len() == 1 && t[0] == T {
        Some(TimingLoad::Class1651Or166)
    } else if t.len() == 1 && t[0] == V {
        Some(TimingLoad::Class220Or221)
    } else if t.len() == 1 && t[0] == X {
        Some(TimingLoad::Class159)
    } else if t.len() == 2 && t[0] == D && t[1] == N1 {
        Some(TimingLoad::DMUPowerCarTrailer)
    } else if t.len() == 2 && t[0] == D && t[1] == N2 {
        Some(TimingLoad::DMU2PowerCarsTrailer)
    } else if t.len() == 2 && t[0] == D && t[1] == N3 {
        Some(TimingLoad::DMUPowerTwin)
    } else {
        match class_number_of(t) {
            Some(n) => Some(TimingLoad::SpecificClass(n)),
            None => None,
        }
    }
}

/// The timing load table for EMU power types, over the trimmed field.
pub open spec fn emu_timing_load_of(t: Seq<u8>) -> Option<TimingLoad> {
    if t.len() == 0 {
        Some(TimingLoad::NotSpecified)
    } else if t.len() == 2 && t[0] == A && t[1] == T {
        Some(TimingLoad::AcceleratedTimings)
    } else if t.len() == 1 && t[0] == E {
        Some(TimingLoad::Class458)
    } else if t.len() == 1 && t[0] == N0 {
        Some(TimingLoad::Class380)
    } else if t.len() == 3 && t[0] == N5 && t[1] == N0 && t[2] == N6 {
        Some(TimingLoad::Class3501110MPH)
    } else {
        match class_number_of(t) {
            Some(n) => Some(TimingLoad::SpecificClass(n)),
            None => None,
        }
    }
}

/// The timing load table for locomotive-hauled power types, over the
/// trimmed field: a load in tonnes, except that `325` under electric power
/// names the class 325 parcels unit.
pub open spec fn hauled_timing_load_of(p: PowerType, t: Seq<u8>) -> Option<TimingLoad> {
    if t.len() == 0 {
        Some(TimingLoad::NotSpecified)
    } else if p == PowerType::Electric && t.len() == 3 && t[0] == N3 && t[1] == N2 && t[2] == N5 {
        Some(TimingLoad::Class325ElectricParcelsUnit)
    } else {
        match class_number_of(t) {
            Some(n) => Some(TimingLoad::LoadInTonnes(n)),
            None => None,
        }
    }
}

/// The timing load named by the trimmed field under a given power type.
pub open spec fn timing_load_of(p: PowerType, t: Seq<u8>) -> Option<TimingLoad> {
    if p == PowerType::DieselMechanicalMultipleUnit || p == PowerType::DieselElectricMultipleUnit {
        dmu_timing_load_of(t)
    } else if p == PowerType::ElectricMultipleUnit {
        emu_timing_load_of(t)
    } else if p == PowerType::Diesel || p == PowerType::Electric || p == PowerType::ElectroDiesel {
        hauled_timing_load_of(p, t)
    } else {
        Some(TimingLoad::NotSpecified)
    }
}

/// Reads the trimmed timing load field under a given power type.
pub fn timing_load_from(p: PowerType, t: &[u8]) -> (r: Option<TimingLoad>)
    ensures
        r == timing_load_of(p, t@),
{
    if p == PowerType::DieselMechanicalMultipleUnit || p == PowerType::DieselElectricMultipleUnit {
        if t.len() == 0 {
            Some(TimingLoad::NotSpecified)
        } else if t.len() == 2 && t[0] == N6 && t[1] == N9 {
            Some(TimingLoad::Class17201721Or1722)
        } else if t.len() == 1 && t[0] == A {
            Some(TimingLoad::Class141To144)
        } else if t.len() == 1 && t[0] == E {
            Some(TimingLoad::Class158168170Or175)
        } else if t.len() == 1 && t[0] == N {
            Some(TimingLoad::Class1650)
        } else if t.len() == 1 && t[0] == S {
            Some(TimingLoad::Class150153155Or156)
        } else if t.len() == 1 && t[0] == T {
            Some(TimingLoad::Class1651Or166)
        } else if t.len() == 1 && t[0] == V {
            Some(TimingLoad::Class220Or221)
        } else if t.len() == 1 && t[0] == X {
            Some(TimingLoad::Class159)
        } else if t.len() == 2 && t[0] == D && t[1] == N1 {
            Some(TimingLoad::DMUPowerCarTrailer)
        } else if t.len() == 2 && t[0] == D && t[1] == N2 {
            Some(TimingLoad::DMU2PowerCarsTrailer)
        } else if t.len() == 2 && t[0] == D && t[1] == N3 {
            Some(TimingLoad::DMUPowerTwin)
        } else {
            match parse_class_number(t) {
                Some(n) => Some(TimingLoad::SpecificClass(n)),
                None => None,
            }
        }
    } else if p == PowerType::ElectricMultipleUnit {
        if t.len() == 0 {
            Some(TimingLoad::NotSpecified)
        } else if t.len() == 2 && t[0] == A && t[1] == T {
            Some(TimingLoad::AcceleratedTimings)
        } else if t.len() == 1 && t[0] == E {
            Some(TimingLoad::Class458)
        } else if t.len() == 1 && t[0] == N0 {
            Some(TimingLoad::Class380)
        } else if t.len() == 3 && t[0] == N5 && t[1] == N0 && t[2] == N6 {
            Some(TimingLoad::Class3501110MPH)
        } else {
            match parse_class_number(t) {
                Some(n) => Some(TimingLoad::SpecificClass(n)),
                None => None,
            }
        }
    } else if p == PowerType::Diesel || p == PowerType::Electric || p == PowerType::ElectroDiesel {
        if t.len() == 0 {
            Some(TimingLoad::NotSpecified)
        } else if p == PowerType::Electric && t.len() == 3 && t[0] == N3 && t[1] == N2 && t[2]
            == N5 {
            Some(TimingLoad::Class325ElectricParcelsUnit)
        } else {
            match parse_class_number(t) {
                Some(n) => Some(TimingLoad::LoadInTonnes(n)),
                None => None,
            }
        }
    } else {
        Some(TimingLoad::NotSpecified)
    }
}

/// The numeric reading of a timing load field: a digit run whose value
/// fits a `u16`. An overflowing value is no class number, as a failed
/// parse is.
pub open spec fn class_number_of(t: Seq<u8>) -> Option<u16> {
    match parse_number(t) {
        Some(n) => {
            if n < 65536 {
                Some(n as u16)
            } else {
                None
            }
        },
        None => None,
    }
}

/// Reads a numeric timing load field.
fn parse_class_number(t: &[u8]) -> (r: Option<u16>)
    ensures
        r == class_number_of(t@),
{
    let n = crate::text::parse_number_capped(t);
    match n {
        Some(v) => {
            if v < 65536 {
                Some(v as u16)
            } else {
                None
            }
        },
        None => None,
    }
}

/// The operating characteristic table for a single byte; the space is
/// skipped by the field reader and is not in the table.
pub open spec fn op_char_of(b: u8) -> Option<OperatingCharacteristic> {
    if b == B {
        Some(OperatingCharacteristic::VacuumBraked)
    } else if b == C {
        Some(OperatingCharacteristic::TimedAt100MPH)
    } else if b == D {
        Some(OperatingCharacteristic::DOOCoachingStockTrains)
    } else if b == E {
        Some(OperatingCharacteristic::ConveysMark4Coaches)
    } else if b == G {
        Some(OperatingCharacteristic::GuardRequired)
    } else if b == M {
        Some(OperatingCharacteristic::TimedAt110MPH)
    } else if b == P {
        Some(OperatingCharacteristic::PushPullTrain)
    } else if b == Q {
        Some(OperatingCharacteristic::RunsAsRequired)
    } else if b == R {
        Some(OperatingCharacteristic::AirConditionedWithPASystem)
    } else if b == S {
        Some(OperatingCharacteristic::SteamHeated)
    } else if b == Y {
        Some(OperatingCharacteristic::RunsToTerminalsAsRequired)
    } else if b == Z {
        Some(OperatingCharacteristic::MayConveyTrafficToSB1CGauge)
    } else {
        None
    }
}

fn op_char_from(b: u8) -> (r: Option<OperatingCharacteristic>)
    ensures
        r == op_char_of(b),
{
    if b == B {
        Some(OperatingCharacteristic::VacuumBraked)
    } else if b == C {
        Some(OperatingCharacteristic::TimedAt100MPH)
    } else if b == D {
        Some(OperatingCharacteristic::DOOCoachingStockTrains)
    } else if b == E {
        Some(OperatingCharacteristic::ConveysMark4Coaches)
    } else if b == G {
        Some(OperatingCharacteristic::GuardRequired)
    } else if b == M {
        Some(OperatingCharacteristic::TimedAt110MPH)
    } else if b == P {
        Some(OperatingCharacteristic::PushPullTrain)
    } else if b == Q {
        Some(OperatingCharacteristic::RunsAsRequired)
    } else if b == R {
        Some(OperatingCharacteristic::AirConditionedWithPASystem)
    } else if b == S {
        Some(OperatingCharacteristic::SteamHeated)
    } else if b == Y {
        Some(OperatingCharacteristic::RunsToTerminalsAsRequired)
    } else if b == Z {
        Some(OperatingCharacteristic::MayConveyTrafficToSB1CGauge)
    } else {
        None
    }
}

/// The operating characteristics named by a field, in field order; spaces
/// are skipped. `Err` carries the first byte outside the table.
pub open spec fn operating_characteristics_of(s: Seq<u8>) -> Result<
    Seq<OperatingCharacteristic>,
    u8,
>
    decreases s.len(),
{
    if s.len() == 0 {
        Ok(Seq::empty())
    } else {
        match operating_characteristics_of(s.drop_last()) {
            Err(e) => Err(e),
            Ok(acc) => {
                if s.last() == SP {
                    Ok(acc)
                } else {
                    match op_char_of(s.last()) {
                        Some(c) => Ok(acc.push(c)),
                        None => Err(s.last()),
                    }
                }
            },
        }
    }
}

proof fn lemma_op_chars_err_persists(s: Seq<u8>, n: int)
    requires
        0 <= n <= s.len(),
        operating_characteristics_of(s.take(n)) is Err,
    ensures
        operating_characteristics_of(s) == operating_characteristics_of(s.take(n)),
    decreases s.len() - n,
{
    if n < s.len() {
        assert(s.take(n + 1).drop_last() =~= s.take(n));
        lemma_op_chars_err_persists(s, n + 1);
    } else {
        assert(s.take(n) =~= s);
    }
}

/// Reads the operating characteristics field.
pub fn operating_characteristics_from(s: &[u8]) -> (r: Result<Vec<OperatingCharacteristic>, u8>)
    ensures
        match r {
            Ok(v) => operating_characteristics_of(s@) == Ok::<_, u8>(v@),
            Err(e) => operating_characteristics_of(s@) == Err::<Seq<OperatingCharacteristic>, _>(
                e,
            ),
        },
{
    let mut v: Vec<OperatingCharacteristic> = Vec::new();
    let mut i: usize = 0;
    while i < s.len()
        invariant
            0 <= i <= s@.len(),
            operating_characteristics_of(s@.take(i as int)) == Ok::<_, u8>(v@),
        decreases s@.len() - i,
    {
        let b = s[i];
        proof {
            assert(s@.take(i + 1).drop_last() =~= s@.take(i as int));
            assert(s@.take(i + 1).last() == s@[i as int]);
        }
        if b != SP {
            match op_char_from(b) {
                Some(c) => {
                    v.push(c);
                },
                None => {
                    proof {
                        lemma_op_chars_err_persists(s@, i + 1);
                    }
                    return Err(b);
                },
            }
        }
        i = i + 1;
    }
    proof {
        assert(s@.take(i as int) =~= s@);
    }
    Ok(v)
}

/// The seating class table: space and `B` both mean first and standard.
pub open spec fn seating_class_of(b: u8) -> Option<SeatingClass> {
    if b == SP || b == B {
        Some(SeatingClass::FirstAndStandard)
    } else if b == S {
        Some(SeatingClass::StandardOnly)
    } else {
        None
    }
}

/// Reads the seating class byte.
pub fn seating_class_from(b: u8) -> (r: Option<SeatingClass>)
    ensures
        r == seating_class_of(b),
{
    if b == SP || b == B {
        Some(SeatingClass::FirstAndStandard)
    } else if b == S {
        Some(SeatingClass::StandardOnly)
    } else {
        None
    }
}

/// The sleepers table.
pub open spec fn sleepers_of(b: u8) -> Option<Sleepers> {
    if b == B {
        Some(Sleepers::FirstAndStandard)
    } else if b == F {
        Some(Sleepers::FirstOnly)
    } else if b == S {
        Some(Sleepers::StandardOnly)
    } else if b == SP {
        Some(Sleepers::NotSpecified)
    } else {
        None
    }
}

/// Reads the sleepers byte.
pub fn sleepers_from(b: u8) -> (r: Option<Sleepers>)
    ensures
        r == sleepers_of(b),
{
    if b == B {
        Some(Sleepers::FirstAndStandard)
    } else if b == F {
        Some(Sleepers::FirstOnly)
    } else if b == S {
        Some(Sleepers::StandardOnly)
    } else if b == SP {
        Some(Sleepers::NotSpecified)
    } else {
        None
    }
}

/// The reservations table.
pub open spec fn reservations_of(b: u8) -> Option<Reservations> {
    if b == A {
        Some(Reservations::Compulsory)
    } else if b == E {
        Some(Reservations::CompulsoryForBicycles)
    } else if b == R {
        Some(Reservations::Recommended)
    } else if b == S {
        Some(Reservations::Possible)
    } else if b == SP {
        Some(Reservations::NotSpecified)
    } else {
        None
    }
}

/// Reads the reservations byte.
pub fn reservations_from(b: u8) -> (r: Option<Reservations>)
    ensures
        r == reservations_of(b),
{
    if b == A {
        Some(Reservations::Compulsory)
    } else if b == E {
        Some(Reservations::CompulsoryForBicycles)
    } else if b == R {
        Some(Reservations::Recommended)
    } else if b == S {
        Some(Reservations::Possible)
    } else if b == SP {
        Some(Reservations::NotSpecified)
    } else {
        None
    }
}

/// The catering table for a single byte; spaces are skipped by the field
/// reader.
pub open spec fn catering_char_of(b: u8) -> Option<Catering> {
    if b == C {
        Some(Catering::BuffetService)
    } else if b == F {
        Some(Catering::RestaurantCarForFirstClass)
    } else if b == H {
        Some(Catering::HotFood)
    } else if b == M {
        Some(Catering::MealForFirstClass)
    } else if b == P {
        Some(Catering::WheelchairReservations)
    } else if b == R {
        Some(Catering::Restaurant)
    } else if b == T {
        Some(Catering::TrolleyService)
    } else {
        None
    }
}

fn catering_char_from(b: u8) -> (r: Option<Catering>)
    ensures
        r == catering_char_of(b),
{
    if b == C {
        Some(Catering::BuffetService)
    } else if b == F {
        Some(Catering::RestaurantCarForFirstClass)
    } else if b == H {
        Some(Catering::HotFood)
    } else if b == M {
        Some(Catering::MealForFirstClass)
    } else if b == P {
        Some(Catering::WheelchairReservations)
    } else if b == R {
        Some(Catering::Restaurant)
    } else if b == T {
        Some(Catering::TrolleyService)
    } else {
        None
    }
}

/// The catering facilities named by a field, in field order; spaces are
/// skipped. `Err` carries the first byte outside the table.
pub open spec fn catering_of(s: Seq<u8>) -> Result<Seq<Catering>, u8>
    decreases s.len(),
{
    if s.len() == 0 {
        Ok(Seq::empty())
    } else {
        match catering_of(s.drop_last()) {
            Err(e) => Err(e),
            Ok(acc) => {
                if s.last() == SP {
                    Ok(acc)
                } else {
                    match catering_char_of(s.last()) {
                        Some(c) => Ok(acc.push(c)),
                        None => Err(s.last()),
                    }
                }
            },
        }
    }
}

proof fn lemma_catering_err_persists(s: Seq<u8>, n: int)
    requires
        0 <= n <= s.len(),
        catering_of(s.take(n)) is Err,
    ensures
        catering_of(s) == catering_of(s.take(n)),
    decreases s.len() - n,
{
    if n < s.len() {
        assert(s.take(n + 1).drop_last() =~= s.take(n));
        lemma_catering_err_persists(s, n + 1);
    } else {
        assert(s.take(n) =~= s);
    }
}

/// Reads the catering code field.
pub fn catering_from(s: &[u8]) -> (r: Result<Vec<Catering>, u8>)
    ensures
        match r {
            Ok(v) => catering_of(s@) == Ok::<_, u8>(v@),
            Err(e) => catering_of(s@) == Err::<Seq<Catering>, _>(e),
        },
{
    let mut v: Vec<Catering> = Vec::new();
    let mut i: usize = 0;
    while i < s.len()
        invariant
            0 <= i <= s@.len(),
            catering_of(s@.take(i as int)) == Ok::<_, u8>(v@),
        decreases s@.len() - i,
    {
        let b = s[i];
        proof {
            assert(s@.take(i + 1).drop_last() =~= s@.take(i as int));
            assert(s@.take(i + 1).last() == s@[i as int]);
        }
        if b != SP {
            match catering_char_from(b) {
                Some(c) => {
                    v.push(c);
                },
                None => {
                    proof {
                        lemma_catering_err_persists(s@, i + 1);
                    }
                    return Err(b);
                },
            }
        }
        i = i + 1;
    }
    proof {
        assert(s@.take(i as int) =~= s@);
    }
    Ok(v)
}

/// The STP indicator table.
pub open spec fn stp_indicator_of(b: u8) -> Option<STPIndicator> {
    if b == C {
        Some(STPIndicator::STPCancellationOfPermanentAssociation)
    } else if b == N {
        Some(STPIndicator::NewSTPAssociation)
    } else if b == O {
        Some(STPIndicator::STPOverlayOfPermanentAssociation)
    } else if b == P {
        Some(STPIndicator::PermanentAssociation)
    } else {
        None
    }
}

/// Reads the STP indicator byte.
pub fn stp_indicator_from(b: u8) -> (r: Option<STPIndicator>)
    ensures
        r == stp_indicator_of(b),
{
    if b == C {
        Some(STPIndicator::STPCancellationOfPermanentAssociation)
    } else if b == N {
        Some(STPIndicator::NewSTPAssociation)
    } else if b == O {
        Some(STPIndicator::STPOverlayOfPermanentAssociation)
    } else if b == P {
        Some(STPIndicator::PermanentAssociation)
    } else {
        None
    }
}

} // verus!
