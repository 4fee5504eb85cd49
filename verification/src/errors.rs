//! Errors raised while applying records to a schedule database.
//!
//! Each variant names the field that could not be interpreted and carries
//! the offending bytes, so a caller can report exactly what was rejected.

use vstd::prelude::*;

verus! {

/// Why a record, or the bundle it closes, could not be applied.
#[derive(Debug)]
pub enum ScheduleApplyError {
    /// The header's extract date or extract time field.
    InvalidHeaderDateTime(Vec<u8>),
    /// A runs-from or runs-to date of a basic schedule record.
    InvalidScheduleDate(Vec<u8>),
    /// The days-run field of a basic schedule record.
    InvalidDaysRun(Vec<u8>),
    /// The train status byte of a basic schedule record.
    InvalidTrainStatus(u8),
    /// The two-byte train category of a basic schedule record.
    InvalidTrainCategory(Vec<u8>),
    /// The power type field of a basic schedule record.
    InvalidPowerType(Vec<u8>),
    /// The timing load field of a basic schedule record.
    InvalidTimingLoad(Vec<u8>),
    /// A byte of the operating characteristics field.
    InvalidOperatingCharacteristic(u8),
    /// The seating class byte of a basic schedule record.
    InvalidSeatingClass(u8),
    /// The sleepers byte of a basic schedule record.
    InvalidSleepers(u8),
    /// The reservations byte of a basic schedule record.
    InvalidReservations(u8),
    /// A byte of the catering code field.
    InvalidCateringCode(u8),
    /// The STP indicator byte of a basic schedule record.
    InvalidSTPIndicator(u8),
    /// A journey time field of a location record.
    InvalidJourneyTime(Vec<u8>),
}

/// The mathematical reading of a [`ScheduleApplyError`]: the same variants
/// with byte fields abstracted to sequences.
pub enum ApplyErrorView {
    InvalidHeaderDateTime(Seq<u8>),
    InvalidScheduleDate(Seq<u8>),
    InvalidDaysRun(Seq<u8>),
    InvalidTrainStatus(u8),
    InvalidTrainCategory(Seq<u8>),
    InvalidPowerType(Seq<u8>),
    InvalidTimingLoad(Seq<u8>),
    InvalidOperatingCharacteristic(u8),
    InvalidSeatingClass(u8),
    InvalidSleepers(u8),
    InvalidReservations(u8),
    InvalidCateringCode(u8),
    InvalidSTPIndicator(u8),
    InvalidJourneyTime(Seq<u8>),
}

impl View for ScheduleApplyError {
    type V = ApplyErrorView;

    open spec fn view(&self) -> ApplyErrorView {
        match self {
            ScheduleApplyError::InvalidHeaderDateTime(s) => ApplyErrorView::InvalidHeaderDateTime(
                s@,
            ),
            ScheduleApplyError::InvalidScheduleDate(s) => ApplyErrorView::InvalidScheduleDate(s@),
            ScheduleApplyError::InvalidDaysRun(s) => ApplyErrorView::InvalidDaysRun(s@),
            ScheduleApplyError::InvalidTrainStatus(b) => ApplyErrorView::InvalidTrainStatus(*b),
            ScheduleApplyError::InvalidTrainCategory(s) => ApplyErrorView::InvalidTrainCategory(s@),
            ScheduleApplyError::InvalidPowerType(s) => ApplyErrorView::InvalidPowerType(s@),
            ScheduleApplyError::InvalidTimingLoad(s) => ApplyErrorView::InvalidTimingLoad(s@),
            ScheduleApplyError::InvalidOperatingCharacteristic(b)
                => ApplyErrorView::InvalidOperatingCharacteristic(*b),
            ScheduleApplyError::InvalidSeatingClass(b) => ApplyErrorView::InvalidSeatingClass(*b),
            ScheduleApplyError::InvalidSleepers(b) => ApplyErrorView::InvalidSleepers(*b),
            ScheduleApplyError::InvalidReservations(b) => ApplyErrorView::InvalidReservations(*b),
            ScheduleApplyError::InvalidCateringCode(b) => ApplyErrorView::InvalidCateringCode(*b),
            ScheduleApplyError::InvalidSTPIndicator(b) => ApplyErrorView::InvalidSTPIndicator(*b),
            ScheduleApplyError::InvalidJourneyTime(s) => ApplyErrorView::InvalidJourneyTime(s@),
        }
    }
}

impl DeepView for ScheduleApplyError {
    type V = ApplyErrorView;

    open spec fn deep_view(&self) -> ApplyErrorView {
        self.view()
    }
}

impl ScheduleApplyError {
    /// A short name for the error kind, for reporting.
    pub fn kind_name(&self) -> (r: &'static str)
    {
        match self {
            ScheduleApplyError::InvalidHeaderDateTime(_) => "invalid extract date and time in header record",
            ScheduleApplyError::InvalidScheduleDate(_) => "invalid date in basic schedule record",
            ScheduleApplyError::InvalidDaysRun(_) => "invalid days run in basic schedule record",
            ScheduleApplyError::InvalidTrainStatus(_) => "invalid train status in basic schedule record",
            ScheduleApplyError::InvalidTrainCategory(_) => "invalid train category in basic schedule record",
            ScheduleApplyError::InvalidPowerType(_) => "invalid train power type in basic schedule record",
            ScheduleApplyError::InvalidTimingLoad(_) => "invalid timing load in basic schedule record",
            ScheduleApplyError::InvalidOperatingCharacteristic(_) => "invalid operating characteristic in basic schedule record",
            ScheduleApplyError::InvalidSeatingClass(_) => "invalid seating class in basic schedule record",
            ScheduleApplyError::InvalidSleepers(_) => "invalid sleepers value in basic schedule record",
            ScheduleApplyError::InvalidReservations(_) => "invalid reservations in basic schedule record",
            ScheduleApplyError::InvalidCateringCode(_) => "invalid catering code in basic schedule record",
            ScheduleApplyError::InvalidSTPIndicator(_) => "invalid STP indicator in basic schedule record",
            ScheduleApplyError::InvalidJourneyTime(_) => "invalid journey time in location record",
        }
    }
}

} // verus!
