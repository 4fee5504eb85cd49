//! The record decoder: fixed-width rows to typed records.
//!
//! A feed is a stream of 81-byte chunks: an 80-byte row and one terminator
//! byte. The first two bytes of a row select the record kind; every other
//! field is a fixed slice of the row, kept byte-for-byte. The decoder
//! interprets nothing but the three numeric location-code fields of TIPLOC
//! records; all meaning is left to the schedule engine.

use vstd::prelude::*;

use crate::records::{CIFFile, CIFRecord, RecordView};
use crate::text::{copy_bytes, parse_number, parse_number_u32};

verus! {

/// Why a single row could not be decoded.
#[derive(Debug, Clone, Copy, PartialEq, Eq, Structural)]
pub enum CIFRecordParseError {
    /// The two tag bytes name no record kind.
    InvalidRecordType(u8, u8),
    /// The row is not exactly 80 bytes.
    GarbledRecord,
    /// The capitals identification field is not a number.
    InvalidCapitalsIdentification,
    /// The national location code field is not a number.
    InvalidNLC,
    /// The STANOX field is not a number.
    InvalidStanox,
}

/// Why a feed could not be decoded.
#[derive(Debug, Clone, Copy, PartialEq, Eq, Structural)]
pub enum CIFParseError {
    /// A row could not be decoded; carries its 1-based line number.
    AtLine(usize, CIFRecordParseError),
    /// The input ended before a full 81-byte chunk.
    Read,
}

/// The field of `row` that starts at `start` and runs for `len` bytes.
pub open spec fn field(row: Seq<u8>, start: int, len: int) -> Seq<u8> {
    row.subrange(start, start + len)
}

/// The `HD` record laid out in `row`.
pub open spec fn decode_hd(row: Seq<u8>) -> RecordView {
    RecordView::Header {
        file_mainframe_identity: field(row, 2, 20),
        date_of_extract: field(row, 22, 6),
        time_of_extract: field(row, 28, 4),
        current_file_reference: field(row, 32, 7),
        last_file_reference: field(row, 39, 7),
        update_indicator: row[46],
        version: row[47],
        user_start_date: field(row, 48, 6),
        user_end_date: field(row, 54, 6),
    }
}

/// The `TI` record laid out in `row`.
pub open spec fn decode_ti(row: Seq<u8>) -> Result<RecordView, CIFRecordParseError> {
    match (parse_number(field(row, 9, 2)), parse_number(field(row, 11, 6)), parse_number(field(row, 44, 5))) {
        (Some(capitals_identification_n), Some(nlc_n), Some(stanox_n)) => Ok(
            RecordView::TIPLOCInsert {
                tiploc: field(row, 2, 7),
                capitals_identification: capitals_identification_n as u8,
                nlc: nlc_n as u32,
                nlc_check_char: row[17],
                tps_description: field(row, 18, 26),
                stanox: stanox_n as u32,
                po_mcp_code: field(row, 49, 4),
                three_alpha_code: field(row, 53, 3),
                nlc_description: field(row, 56, 16),
            },
        ),
        (None, _, _) => Err(CIFRecordParseError::InvalidCapitalsIdentification),
        (Some(_), None, _) => Err(CIFRecordParseError::InvalidNLC),
        (Some(_), Some(_), None) => Err(CIFRecordParseError::InvalidStanox),
    }
}

/// The `TA` record laid out in `row`.
pub open spec fn decode_ta(row: Seq<u8>) -> Result<RecordView, CIFRecordParseError> {
    match (parse_number(field(row, 9, 2)), parse_number(field(row, 11, 6)), parse_number(field(row, 44, 5))) {
        (Some(capitals_identification_n), Some(nlc_n), Some(stanox_n)) => Ok(
            RecordView::TIPLOCAmend {
                tiploc: field(row, 2, 7),
                capitals_identification: capitals_identification_n as u8,
                nlc: nlc_n as u32,
                nlc_check_char: row[17],
                tps_description: field(row, 18, 26),
                stanox: stanox_n as u32,
                po_mcp_code: field(row, 49, 4),
                three_alpha_code: field(row, 53, 3),
                nlc_description: field(row, 56, 16),
                new_tiploc: field(row, 72, 7),
            },
        ),
        (None, _, _) => Err(CIFRecordParseError::InvalidCapitalsIdentification),
        (Some(_), None, _) => Err(CIFRecordParseError::InvalidNLC),
        (Some(_), Some(_), None) => Err(CIFRecordParseError::InvalidStanox),
    }
}

/// The `TD` record laid out in `row`.
pub open spec fn decode_td(row: Seq<u8>) -> RecordView {
    RecordView::TIPLOCDelete {
        tiploc: field(row, 2, 7),
    }
}

/// The `AA` record laid out in `row`.
pub open spec fn decode_aa(row: Seq<u8>) -> RecordView {
    RecordView::Association {
        transaction_type: row[2],
        main_train_uid: field(row, 3, 6),
        associated_train_uid: field(row, 9, 6),
        association_start_date: field(row, 15, 6),
        association_end_date: field(row, 21, 6),
        association_days: field(row, 27, 7),
        association_category: field(row, 34, 2),
        association_date_indicator: row[36],
        association_location: field(row, 37, 7),
        base_location_suffix: field(row, 44, 1),
        association_location_suffix: field(row, 45, 1),
        diagram_type: row[46],
        association_type: row[47],
        stp_indicator: row[79],
    }
}

/// The `BS` record laid out in `row`.
pub open spec fn decode_bs(row: Seq<u8>) -> RecordView {
    RecordView::BasicSchedule {
        transaction_type: row[2],
        train_uid: field(row, 3, 6),
        date_runs_from: field(row, 9, 6),
        date_runs_to: field(row, 15, 6),
        days_run: field(row, 21, 7),
        bank_holiday_running: row[28],
        train_status: row[29],
        train_category: field(row, 30, 2),
        train_identity: field(row, 32, 4),
        headcode: field(row, 36, 4),
        course_indicator: row[40],
        train_service_code: field(row, 41, 8),
        portion_id: row[49],
        power_type: field(row, 50, 3),
        timing_load: field(row, 53, 4),
        speed: field(row, 57, 3),
        operating_characteristics: field(row, 60, 6),
        seating_class: row[66],
        sleepers: row[67],
        reservations: row[68],
        connection_indicator: row[69],
        catering_code: field(row, 70, 4),
        service_branding: field(row, 74, 4),
        stp_indicator: row[79],
    }
}

/// The `BX` record laid out in `row`.
pub open spec fn decode_bx(row: Seq<u8>) -> RecordView {
    RecordView::BasicScheduleExtended {
        traction_class: field(row, 2, 4),
        uic_code: field(row, 6, 5),
        atoc_code: field(row, 11, 2),
        applicable_timetable_code: row[13],
    }
}

/// The `LO` record laid out in `row`.
pub open spec fn decode_lo(row: Seq<u8>) -> RecordView {
    RecordView::LocationOrigin {
        location: field(row, 2, 8),
        scheduled_departure_time: field(row, 10, 5),
        public_departure_time: field(row, 15, 4),
        platform: field(row, 19, 3),
        line: field(row, 22, 3),
        engineering_allowance: field(row, 25, 2),
        pathing_allowance: field(row, 27, 2),
        activity: field(row, 29, 12),
        performance_allowance: field(row, 41, 2),
    }
}

/// The `LI` record laid out in `row`.
pub open spec fn decode_li(row: Seq<u8>) -> RecordView {
    RecordView::LocationIntermediate {
        location: field(row, 2, 8),
        scheduled_arrival_time: field(row, 10, 5),
        scheduled_departure_time: field(row, 15, 5),
        scheduled_pass: field(row, 20, 5),
        public_arrival_time: field(row, 25, 4),
        public_departure_time: field(row, 29, 4),
        platform: field(row, 33, 3),
        line: field(row, 36, 3),
        path: field(row, 39, 3),
        activity: field(row, 42, 12),
        engineering_allowance: field(row, 54, 2),
        pathing_allowance: field(row, 56, 2),
        performance_allowance: field(row, 58, 2),
    }
}

/// The `CR` record laid out in `row`.
pub open spec fn decode_cr(row: Seq<u8>) -> RecordView {
    RecordView::ChangeEnRoute {
        location: field(row, 2, 8),
        train_category: field(row, 10, 2),
        train_identity: field(row, 12, 4),
        headcode: field(row, 16, 4),
        course_indicator: row[20],
        profit_centre_code: field(row, 21, 8),
        business_sector: row[29],
        power_type: field(row, 30, 3),
        timing_load: field(row, 33, 4),
        speed: field(row, 37, 3),
        operating_chars: field(row, 40, 6),
        train_class: row[46],
        sleepers: row[47],
        reservations: row[48],
        connect_indicator: row[49],
        catering_code: field(row, 50, 4),
        service_branding: field(row, 54, 4),
        traction_class: field(row, 58, 4),
        uic_code: field(row, 62, 5),
        retail_train_id: field(row, 67, 8),
    }
}

/// The `LT` record laid out in `row`.
pub open spec fn decode_lt(row: Seq<u8>) -> RecordView {
    RecordView::LocationTerminate {
        location: field(row, 2, 8),
        scheduled_arrival_time: field(row, 10, 5),
        public_arrival_time: field(row, 15, 4),
        platform: field(row, 19, 3),
        path: field(row, 22, 3),
        activity: field(row, 25, 12),
    }
}

/// The record laid out in an 80-byte row, or why there is none.
pub open spec fn decode_record(row: Seq<u8>) -> Result<RecordView, CIFRecordParseError> {
    if row.len() != 80 {
        Err(CIFRecordParseError::GarbledRecord)
    } else {
        let a = row[0];
        let b = row[1];
        if a == crate::text::H && b == crate::text::D {
            Ok(decode_hd(row))
        } else if a == crate::text::T && b == crate::text::I {
            decode_ti(row)
        } else if a == crate::text::T && b == crate::text::A {
            decode_ta(row)
        } else if a == crate::text::T && b == crate::text::D {
            Ok(decode_td(row))
        } else if a == crate::text::A && b == crate::text::A {
            Ok(decode_aa(row))
        } else if a == crate::text::B && b == crate::text::S {
            Ok(decode_bs(row))
        } else if a == crate::text::B && b == crate::text::X {
            Ok(decode_bx(row))
        } else if a == crate::text::L && b == crate::text::O {
            Ok(decode_lo(row))
        } else if a == crate::text::L && b == crate::text::I {
            Ok(decode_li(row))
        } else if a == crate::text::C && b == crate::text::R {
            Ok(decode_cr(row))
        } else if a == crate::text::L && b == crate::text::T {
            Ok(decode_lt(row))
        } else if a == crate::text::Z && b == crate::text::Z {
            Ok(RecordView::Trailer)
        } else {
            Err(CIFRecordParseError::InvalidRecordType(a, b))
        }
    }
}


/// Decodes one 80-byte row into a typed record. A row of any other length
/// is garbled.
pub fn parse_record(row: &[u8]) -> (r: Result<CIFRecord, CIFRecordParseError>)
    ensures
        match r {
            Ok(rec) => decode_record(row@) == Ok::<RecordView, CIFRecordParseError>(rec@),
            Err(e) => decode_record(row@) == Err::<RecordView, CIFRecordParseError>(e),
        },
{
    if row.len() != 80 {
        return Err(CIFRecordParseError::GarbledRecord);
    }
    let a = row[0];
    let b = row[1];
    if a == crate::text::H && b == crate::text::D {
        Ok(
            CIFRecord::Header {
                file_mainframe_identity: copy_bytes(&row[2..22]),
                date_of_extract: copy_bytes(&row[22..28]),
                time_of_extract: copy_bytes(&row[28..32]),
                current_file_reference: copy_bytes(&row[32..39]),
                last_file_reference: copy_bytes(&row[39..46]),
                update_indicator: row[46],
                version: row[47],
                user_start_date: copy_bytes(&row[48..54]),
                user_end_date: copy_bytes(&row[54..60]),
            },
        )
    } else if a == crate::text::T && b == crate::text::I {
        let capitals_identification_n = match parse_number_u32(&row[9..11]) {
            Some(v) => v,
            None => {
                return Err(CIFRecordParseError::InvalidCapitalsIdentification);
            },
        };
        proof {
            reveal_with_fuel(crate::text::pow10, 8);
            crate::text::lemma_digits_value_bound(row@.subrange(9, 11));
        }
        let nlc_n = match parse_number_u32(&row[11..17]) {
            Some(v) => v,
            None => {
                return Err(CIFRecordParseError::InvalidNLC);
            },
        };
        proof {
            reveal_with_fuel(crate::text::pow10, 8);
            crate::text::lemma_digits_value_bound(row@.subrange(11, 17));
        }
        let stanox_n = match parse_number_u32(&row[44..49]) {
            Some(v) => v,
            None => {
                return Err(CIFRecordParseError::InvalidStanox);
            },
        };
        proof {
            reveal_with_fuel(crate::text::pow10, 8);
            crate::text::lemma_digits_value_bound(row@.subrange(44, 49));
        }
        Ok(
            CIFRecord::TIPLOCInsert {
                tiploc: copy_bytes(&row[2..9]),
                capitals_identification: capitals_identification_n as u8,
                nlc: nlc_n as u32,
                nlc_check_char: row[17],
                tps_description: copy_bytes(&row[18..44]),
                stanox: stanox_n as u32,
                po_mcp_code: copy_bytes(&row[49..53]),
                three_alpha_code: copy_bytes(&row[53..56]),
                nlc_description: copy_bytes(&row[56..72]),
            },
        )
    } else if a == crate::text::T && b == crate::text::A {
        let capitals_identification_n = match parse_number_u32(&row[9..11]) {
            Some(v) => v,
            None => {
                return Err(CIFRecordParseError::InvalidCapitalsIdentification);
            },
        };
        proof {
            reveal_with_fuel(crate::text::pow10, 8);
            crate::text::lemma_digits_value_bound(row@.subrange(9, 11));
        }
        let nlc_n = match parse_number_u32(&row[11..17]) {
            Some(v) => v,
            None => {
                return Err(CIFRecordParseError::InvalidNLC);
            },
        };
        proof {
            reveal_with_fuel(crate::text::pow10, 8);
            crate::text::lemma_digits_value_bound(row@.subrange(11, 17));
        }
        let stanox_n = match parse_number_u32(&row[44..49]) {
            Some(v) => v,
            None => {
                return Err(CIFRecordParseError::InvalidStanox);
            },
        };
        proof {
            reveal_with_fuel(crate::text::pow10, 8);
            crate::text::lemma_digits_value_bound(row@.subrange(44, 49));
        }
        Ok(
            CIFRecord::TIPLOCAmend {
                tiploc: copy_bytes(&row[2..9]),
                capitals_identification: capitals_identification_n as u8,
                nlc: nlc_n as u32,
                nlc_check_char: row[17],
                tps_description: copy_bytes(&row[18..44]),
                stanox: stanox_n as u32,
                po_mcp_code: copy_bytes(&row[49..53]),
                three_alpha_code: copy_bytes(&row[53..56]),
                nlc_description: copy_bytes(&row[56..72]),
                new_tiploc: copy_bytes(&row[72..79]),
            },
        )
    } else if a == crate::text::T && b == crate::text::D {
        Ok(
            CIFRecord::TIPLOCDelete {
                tiploc: copy_bytes(&row[2..9]),
            },
        )
    } else if a == crate::text::A && b == crate::text::A {
        Ok(
            CIFRecord::Association {
                transaction_type: row[2],
                main_train_uid: copy_bytes(&row[3..9]),
                associated_train_uid: copy_bytes(&row[9..15]),
                association_start_date: copy_bytes(&row[15..21]),
                association_end_date: copy_bytes(&row[21..27]),
                association_days: copy_bytes(&row[27..34]),
                association_category: copy_bytes(&row[34..36]),
                association_date_indicator: row[36],
                association_location: copy_bytes(&row[37..44]),
                base_location_suffix: copy_bytes(&row[44..45]),
                association_location_suffix: copy_bytes(&row[45..46]),
                diagram_type: row[46],
                association_type: row[47],
                stp_indicator: row[79],
            },
        )
    } else if a == crate::text::B && b == crate::text::S {
        Ok(
            CIFRecord::BasicSchedule {
                transaction_type: row[2],
                train_uid: copy_bytes(&row[3..9]),
                date_runs_from: copy_bytes(&row[9..15]),
                date_runs_to: copy_bytes(&row[15..21]),
                days_run: copy_bytes(&row[21..28]),
                bank_holiday_running: row[28],
                train_status: row[29],
                train_category: copy_bytes(&row[30..32]),
                train_identity: copy_bytes(&row[32..36]),
                headcode: copy_bytes(&row[36..40]),
                course_indicator: row[40],
                train_service_code: copy_bytes(&row[41..49]),
                portion_id: row[49],
                power_type: copy_bytes(&row[50..53]),
                timing_load: copy_bytes(&row[53..57]),
                speed: copy_bytes(&row[57..60]),
                operating_characteristics: copy_bytes(&row[60..66]),
                seating_class: row[66],
                sleepers: row[67],
                reservations: row[68],
                connection_indicator: row[69],
                catering_code: copy_bytes(&row[70..74]),
                service_branding: copy_bytes(&row[74..78]),
                stp_indicator: row[79],
            },
        )
    } else if a == crate::text::B && b == crate::text::X {
        Ok(
            CIFRecord::BasicScheduleExtended {
                traction_class: copy_bytes(&row[2..6]),
                uic_code: copy_bytes(&row[6..11]),
                atoc_code: copy_bytes(&row[11..13]),
                applicable_timetable_code: row[13],
            },
        )
    } else if a == crate::text::L && b == crate::text::O {
        Ok(
            CIFRecord::LocationOrigin {
                location: copy_bytes(&row[2..10]),
                scheduled_departure_time: copy_bytes(&row[10..15]),
                public_departure_time: copy_bytes(&row[15..19]),
                platform: copy_bytes(&row[19..22]),
                line: copy_bytes(&row[22..25]),
                engineering_allowance: copy_bytes(&row[25..27]),
                pathing_allowance: copy_bytes(&row[27..29]),
                activity: copy_bytes(&row[29..41]),
                performance_allowance: copy_bytes(&row[41..43]),
            },
        )
    } else if a == crate::text::L && b == crate::text::I {
        Ok(
            CIFRecord::LocationIntermediate {
                location: copy_bytes(&row[2..10]),
                scheduled_arrival_time: copy_bytes(&row[10..15]),
                scheduled_departure_time: copy_bytes(&row[15..20]),
                scheduled_pass: copy_bytes(&row[20..25]),
                public_arrival_time: copy_bytes(&row[25..29]),
                public_departure_time: copy_bytes(&row[29..33]),
                platform: copy_bytes(&row[33..36]),
                line: copy_bytes(&row[36..39]),
                path: copy_bytes(&row[39..42]),
                activity: copy_bytes(&row[42..54]),
                engineering_allowance: copy_bytes(&row[54..56]),
                pathing_allowance: copy_bytes(&row[56..58]),
                performance_allowance: copy_bytes(&row[58..60]),
            },
        )
    } else if a == crate::text::C && b == crate::text::R {
        Ok(
            CIFRecord::ChangeEnRoute {
                location: copy_bytes(&row[2..10]),
                train_category: copy_bytes(&row[10..12]),
                train_identity: copy_bytes(&row[12..16]),
                headcode: copy_bytes(&row[16..20]),
                course_indicator: row[20],
                profit_centre_code: copy_bytes(&row[21..29]),
                business_sector: row[29],
                power_type: copy_bytes(&row[30..33]),
                timing_load: copy_bytes(&row[33..37]),
                speed: copy_bytes(&row[37..40]),
                operating_chars: copy_bytes(&row[40..46]),
                train_class: row[46],
                sleepers: row[47],
                reservations: row[48],
                connect_indicator: row[49],
                catering_code: copy_bytes(&row[50..54]),
                service_branding: copy_bytes(&row[54..58]),
                traction_class: copy_bytes(&row[58..62]),
                uic_code: copy_bytes(&row[62..67]),
                retail_train_id: copy_bytes(&row[67..75]),
            },
        )
    } else if a == crate::text::L && b == crate::text::T {
        Ok(
            CIFRecord::LocationTerminate {
                location: copy_bytes(&row[2..10]),
                scheduled_arrival_time: copy_bytes(&row[10..15]),
                public_arrival_time: copy_bytes(&row[15..19]),
                platform: copy_bytes(&row[19..22]),
                path: copy_bytes(&row[22..25]),
                activity: copy_bytes(&row[25..37]),
            },
        )
    } else if a == crate::text::Z && b == crate::text::Z {
        Ok(CIFRecord::Trailer)
    } else {
        Err(CIFRecordParseError::InvalidRecordType(a, b))
    }
}

/// The records of a whole feed: one per 81-byte chunk, in order, ending at
/// the first trailer. `line` is the 1-based line number of the first chunk.
pub open spec fn decode_stream(content: Seq<u8>, line: nat) -> Result<Seq<RecordView>, CIFParseError>
    decreases content.len(),
{
    if content.len() < 81 {
        Err(CIFParseError::Read)
    } else {
        match decode_record(content.subrange(0, 80)) {
            Err(e) => Err(CIFParseError::AtLine(line as usize, e)),
            Ok(rv) => {
                if rv is Trailer {
                    Ok(seq![rv])
                } else {
                    match decode_stream(content.skip(81), line + 1) {
                        Ok(rest) => Ok(seq![rv] + rest),
                        Err(e) => Err(e),
                    }
                }
            },
        }
    }
}

/// The remaining input at `offset`, decoded from `line` on, extends the
/// records decoded so far to the decoding of the whole feed.
spec fn stream_continues(content: Seq<u8>, offset: int, line: nat, done: Seq<RecordView>) -> bool {
    decode_stream(content, 1) == (match decode_stream(content.skip(offset), line) {
        Ok(tail) => Ok::<Seq<RecordView>, CIFParseError>(done + tail),
        Err(e) => Err::<Seq<RecordView>, CIFParseError>(e),
    })
}

/// Decodes a whole feed. Each record occupies exactly 81 bytes of input:
/// an 80-byte row and its terminator byte. Decoding stops at the first
/// trailer record; an input that ends before a trailer, or mid-chunk,
/// fails with `Read`, and a bad row fails with its line number.
pub fn parse_cif(content: &[u8]) -> (r: Result<CIFFile, CIFParseError>)
    ensures
        match r {
            Ok(file) => decode_stream(content@, 1) == Ok::<Seq<RecordView>, CIFParseError>(file@),
            Err(e) => decode_stream(content@, 1) == Err::<Seq<RecordView>, CIFParseError>(e),
        },
{
    let mut file = CIFFile::new();
    let mut offset: usize = 0;
    let mut line: usize = 1;
    proof {
        assert(content@.skip(0) =~= content@);
        assert(forall|tail: Seq<RecordView>| Seq::<RecordView>::empty() + tail =~= tail);
    }
    loop
        invariant
            line >= 1,
            81 * (line - 1) == offset,
            offset <= content@.len(),
            stream_continues(content@, offset as int, line as nat, file@),
        decreases content@.len() - offset,
    {
        let remaining = content.len() - offset;
        if remaining < 81 {
            return Err(CIFParseError::Read);
        }
        let row = &content[offset..offset + 80];
        proof {
            assert(row@ =~= content@.skip(offset as int).subrange(0, 80));
        }
        let rec = match parse_record(row) {
            Ok(rec) => rec,
            Err(e) => {
                return Err(CIFParseError::AtLine(line, e));
            },
        };
        let is_trailer = if let CIFRecord::Trailer = rec {
            true
        } else {
            false
        };
        let ghost file_before = file@;
        file.push_record(rec);
        if is_trailer {
            proof {
                assert(seq![rec@] =~= Seq::<RecordView>::empty().push(rec@));
                assert(file_before + seq![rec@] =~= file@);
            }
            return Ok(file);
        }
        proof {
            assert(81 * (line - 1) == offset);
            assert(81 * line == offset + 81) by (nonlinear_arith)
                requires 81 * (line - 1) == offset;
            assert(line <= offset + 1) by (nonlinear_arith)
                requires 81 * (line - 1) == offset, line >= 1;
            assert(content@.skip(offset as int).skip(81) =~= content@.skip(offset + 81));
            assert(forall|rv: RecordView, tail: Seq<RecordView>|
                (file_before + (seq![rv] + tail)) =~= ((file_before + seq![rv]) + tail));
            assert(file_before + seq![rec@] =~= file@);
        }
        offset = offset + 81;
        line = line + 1;
    }
}

/// Every successfully decoded feed came from exactly 81 input bytes per
/// record: record `i` is decoded from the row at offset `81 * i`, and the
/// input reaches at least to the end of the last chunk.
pub proof fn lemma_decoded_rows_span(content: Seq<u8>, line: nat, recs: Seq<RecordView>)
    requires
        decode_stream(content, line) == Ok::<Seq<RecordView>, CIFParseError>(recs),
    ensures
        81 * recs.len() <= content.len(),
        forall|i: int|
            0 <= i < recs.len() ==> decode_record(
                #[trigger] content.subrange(81 * i, 81 * i + 80),
            ) == Ok::<RecordView, CIFRecordParseError>(recs[i]),
    decreases content.len(),
{
    let first = decode_record(content.subrange(0, 80));
    if first matches Ok(rv) && !(rv is Trailer) {
        let rest = decode_stream(content.skip(81), line + 1);
        let tail = rest->Ok_0;
        lemma_decoded_rows_span(content.skip(81), line + 1, tail);
        assert forall|i: int| 1 <= i < recs.len() implies decode_record(
            #[trigger] content.subrange(81 * i, 81 * i + 80),
        ) == Ok::<RecordView, CIFRecordParseError>(recs[i]) by {
            assert(content.skip(81).subrange(81 * (i - 1), 81 * (i - 1) + 80) =~= content.subrange(
                81 * i,
                81 * i + 80,
            ));
            assert(recs[i] == tail[i - 1]);
        }
    }
}

/// Round trip of the tag: a decoded record's kind is exactly the first two
/// bytes of its source row.
pub proof fn lemma_record_tag_round_trip(row: Seq<u8>, rv: RecordView)
    requires
        decode_record(row) == Ok::<RecordView, CIFRecordParseError>(rv),
    ensures
        rv.tag() == (row[0], row[1]),
{
}

} // verus!
