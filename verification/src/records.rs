//! The typed records of a CIF feed.
//!
//! A record is one 80-byte row of the feed; its first two bytes name its
//! kind and the rest is a fixed layout of fields. Textual fields keep the
//! exact bytes of the row, padding included: trimming belongs to the
//! schedule engine, never to the decoder. The three numeric location-code
//! fields of TIPLOC records are decoded as unsigned base-10 numbers.

use vstd::prelude::*;

verus! {

/// A decoded CIF record.
#[derive(Debug)]
pub enum CIFRecord {
    /// `HD`
    Header {
        file_mainframe_identity: Vec<u8>,
        date_of_extract: Vec<u8>,
        time_of_extract: Vec<u8>,
        current_file_reference: Vec<u8>,
        last_file_reference: Vec<u8>,
        update_indicator: u8,
        version: u8,
        user_start_date: Vec<u8>,
        user_end_date: Vec<u8>,
    },
    /// `TI`
    TIPLOCInsert {
        tiploc: Vec<u8>,
        capitals_identification: u8,
        nlc: u32,
        nlc_check_char: u8,
        tps_description: Vec<u8>,
        stanox: u32,
        po_mcp_code: Vec<u8>,
        three_alpha_code: Vec<u8>,
        nlc_description: Vec<u8>,
    },
    /// `TA`
    TIPLOCAmend {
        tiploc: Vec<u8>,
        capitals_identification: u8,
        nlc: u32,
        nlc_check_char: u8,
        tps_description: Vec<u8>,
        stanox: u32,
        po_mcp_code: Vec<u8>,
        three_alpha_code: Vec<u8>,
        nlc_description: Vec<u8>,
        new_tiploc: Vec<u8>,
    },
    /// `TD`
    TIPLOCDelete {
        tiploc: Vec<u8>,
    },
    /// `AA`
    Association {
        transaction_type: u8,
        main_train_uid: Vec<u8>,
        associated_train_uid: Vec<u8>,
        association_start_date: Vec<u8>,
        association_end_date: Vec<u8>,
        association_days: Vec<u8>,
        association_category: Vec<u8>,
        association_date_indicator: u8,
        association_location: Vec<u8>,
        base_location_suffix: Vec<u8>,
        association_location_suffix: Vec<u8>,
        diagram_type: u8,
        association_type: u8,
        stp_indicator: u8,
    },
    /// `BS`
    BasicSchedule {
        transaction_type: u8,
        train_uid: Vec<u8>,
        date_runs_from: Vec<u8>,
        date_runs_to: Vec<u8>,
        days_run: Vec<u8>,
        bank_holiday_running: u8,
        train_status: u8,
        train_category: Vec<u8>,
        train_identity: Vec<u8>,
        headcode: Vec<u8>,
        course_indicator: u8,
        train_service_code: Vec<u8>,
        portion_id: u8,
        power_type: Vec<u8>,
        timing_load: Vec<u8>,
        speed: Vec<u8>,
        operating_characteristics: Vec<u8>,
        seating_class: u8,
        sleepers: u8,
        reservations: u8,
        connection_indicator: u8,
        catering_code: Vec<u8>,
        service_branding: Vec<u8>,
        stp_indicator: u8,
    },
    /// `BX`
    BasicScheduleExtended {
        traction_class: Vec<u8>,
        uic_code: Vec<u8>,
        atoc_code: Vec<u8>,
        applicable_timetable_code: u8,
    },
    /// `LO`
    LocationOrigin {
        location: Vec<u8>,
        scheduled_departure_time: Vec<u8>,
        public_departure_time: Vec<u8>,
        platform: Vec<u8>,
        line: Vec<u8>,
        engineering_allowance: Vec<u8>,
        pathing_allowance: Vec<u8>,
        activity: Vec<u8>,
        performance_allowance: Vec<u8>,
    },
    /// `LI`
    LocationIntermediate {
        location: Vec<u8>,
        scheduled_arrival_time: Vec<u8>,
        scheduled_departure_time: Vec<u8>,
        scheduled_pass: Vec<u8>,
        public_arrival_time: Vec<u8>,
        public_departure_time: Vec<u8>,
        platform: Vec<u8>,
        line: Vec<u8>,
        path: Vec<u8>,
        activity: Vec<u8>,
        engineering_allowance: Vec<u8>,
        pathing_allowance: Vec<u8>,
        performance_allowance: Vec<u8>,
    },
    /// `CR`
    ChangeEnRoute {
        location: Vec<u8>,
        train_category: Vec<u8>,
        train_identity: Vec<u8>,
        headcode: Vec<u8>,
        course_indicator: u8,
        profit_centre_code: Vec<u8>,
        business_sector: u8,
        power_type: Vec<u8>,
        timing_load: Vec<u8>,
        speed: Vec<u8>,
        operating_chars: Vec<u8>,
        train_class: u8,
        sleepers: u8,
        reservations: u8,
        connect_indicator: u8,
        catering_code: Vec<u8>,
        service_branding: Vec<u8>,
        traction_class: Vec<u8>,
        uic_code: Vec<u8>,
        retail_train_id: Vec<u8>,
    },
    /// `LT`
    LocationTerminate {
        location: Vec<u8>,
        scheduled_arrival_time: Vec<u8>,
        public_arrival_time: Vec<u8>,
        platform: Vec<u8>,
        path: Vec<u8>,
        activity: Vec<u8>,
    },
    /// `ZZ`
    Trailer,
}

/// The mathematical reading of a [`CIFRecord`]: the same variants with
/// byte-string fields abstracted to sequences.
pub enum RecordView {
    Header {
        file_mainframe_identity: Seq<u8>,
        date_of_extract: Seq<u8>,
        time_of_extract: Seq<u8>,
        current_file_reference: Seq<u8>,
        last_file_reference: Seq<u8>,
        update_indicator: u8,
        version: u8,
        user_start_date: Seq<u8>,
        user_end_date: Seq<u8>,
    },
    TIPLOCInsert {
        tiploc: Seq<u8>,
        capitals_identification: u8,
        nlc: u32,
        nlc_check_char: u8,
        tps_description: Seq<u8>,
        stanox: u32,
        po_mcp_code: Seq<u8>,
        three_alpha_code: Seq<u8>,
        nlc_description: Seq<u8>,
    },
    TIPLOCAmend {
        tiploc: Seq<u8>,
        capitals_identification: u8,
        nlc: u32,
        nlc_check_char: u8,
        tps_description: Seq<u8>,
        stanox: u32,
        po_mcp_code: Seq<u8>,
        three_alpha_code: Seq<u8>,
        nlc_description: Seq<u8>,
        new_tiploc: Seq<u8>,
    },
    TIPLOCDelete {
        tiploc: Seq<u8>,
    },
    Association {
        transaction_type: u8,
        main_train_uid: Seq<u8>,
        associated_train_uid: Seq<u8>,
        association_start_date: Seq<u8>,
        association_end_date: Seq<u8>,
        association_days: Seq<u8>,
        association_category: Seq<u8>,
        association_date_indicator: u8,
        association_location: Seq<u8>,
        base_location_suffix: Seq<u8>,
        association_location_suffix: Seq<u8>,
        diagram_type: u8,
        association_type: u8,
        stp_indicator: u8,
    },
    BasicSchedule {
        transaction_type: u8,
        train_uid: Seq<u8>,
        date_runs_from: Seq<u8>,
        date_runs_to: Seq<u8>,
        days_run: Seq<u8>,
        bank_holiday_running: u8,
        train_status: u8,
        train_category: Seq<u8>,
        train_identity: Seq<u8>,
        headcode: Seq<u8>,
        course_indicator: u8,
        train_service_code: Seq<u8>,
        portion_id: u8,
        power_type: Seq<u8>,
        timing_load: Seq<u8>,
        speed: Seq<u8>,
        operating_characteristics: Seq<u8>,
        seating_class: u8,
        sleepers: u8,
        reservations: u8,
        connection_indicator: u8,
        catering_code: Seq<u8>,
        service_branding: Seq<u8>,
        stp_indicator: u8,
    },
    BasicScheduleExtended {
        traction_class: Seq<u8>,
        uic_code: Seq<u8>,
        atoc_code: Seq<u8>,
        applicable_timetable_code: u8,
    },
    LocationOrigin {
        location: Seq<u8>,
        scheduled_departure_time: Seq<u8>,
        public_departure_time: Seq<u8>,
        platform: Seq<u8>,
        line: Seq<u8>,
        engineering_allowance: Seq<u8>,
        pathing_allowance: Seq<u8>,
        activity: Seq<u8>,
        performance_allowance: Seq<u8>,
    },
    LocationIntermediate {
        location: Seq<u8>,
        scheduled_arrival_time: Seq<u8>,
        scheduled_departure_time: Seq<u8>,
        scheduled_pass: Seq<u8>,
        public_arrival_time: Seq<u8>,
        public_departure_time: Seq<u8>,
        platform: Seq<u8>,
        line: Seq<u8>,
        path: Seq<u8>,
        activity: Seq<u8>,
        engineering_allowance: Seq<u8>,
        pathing_allowance: Seq<u8>,
        performance_allowance: Seq<u8>,
    },
    ChangeEnRoute {
        location: Seq<u8>,
        train_category: Seq<u8>,
        train_identity: Seq<u8>,
        headcode: Seq<u8>,
        course_indicator: u8,
        profit_centre_code: Seq<u8>,
        business_sector: u8,
        power_type: Seq<u8>,
        timing_load: Seq<u8>,
        speed: Seq<u8>,
        operating_chars: Seq<u8>,
        train_class: u8,
        sleepers: u8,
        reservations: u8,
        connect_indicator: u8,
        catering_code: Seq<u8>,
        service_branding: Seq<u8>,
        traction_class: Seq<u8>,
        uic_code: Seq<u8>,
        retail_train_id: Seq<u8>,
    },
    LocationTerminate {
        location: Seq<u8>,
        scheduled_arrival_time: Seq<u8>,
        public_arrival_time: Seq<u8>,
        platform: Seq<u8>,
        path: Seq<u8>,
        activity: Seq<u8>,
    },
    Trailer,
}

impl View for CIFRecord {
    type V = RecordView;

    open spec fn view(&self) -> RecordView {
        match self {
            CIFRecord::Header {
                file_mainframe_identity,
                date_of_extract,
                time_of_extract,
                current_file_reference,
                last_file_reference,
                update_indicator,
                version,
                user_start_date,
                user_end_date,
            } => RecordView::Header {
                file_mainframe_identity: file_mainframe_identity@,
                date_of_extract: date_of_extract@,
                time_of_extract: time_of_extract@,
                current_file_reference: current_file_reference@,
                last_file_reference: last_file_reference@,
                update_indicator: *update_indicator,
                version: *version,
                user_start_date: user_start_date@,
                user_end_date: user_end_date@,
            },
            CIFRecord::TIPLOCInsert {
                tiploc,
                capitals_identification,
                nlc,
                nlc_check_char,
                tps_description,
                stanox,
                po_mcp_code,
                three_alpha_code,
                nlc_description,
            } => RecordView::TIPLOCInsert {
                tiploc: tiploc@,
                capitals_identification: *capitals_identification,
                nlc: *nlc,
                nlc_check_char: *nlc_check_char,
                tps_description: tps_description@,
                stanox: *stanox,
                po_mcp_code: po_mcp_code@,
                three_alpha_code: three_alpha_code@,
                nlc_description: nlc_description@,
            },
            CIFRecord::TIPLOCAmend {
                tiploc,
                capitals_identification,
                nlc,
                nlc_check_char,
                tps_description,
                stanox,
                po_mcp_code,
                three_alpha_code,
                nlc_description,
                new_tiploc,
            } => RecordView::TIPLOCAmend {
                tiploc: tiploc@,
                capitals_identification: *capitals_identification,
                nlc: *nlc,
                nlc_check_char: *nlc_check_char,
                tps_description: tps_description@,
                stanox: *stanox,
                po_mcp_code: po_mcp_code@,
                three_alpha_code: three_alpha_code@,
                nlc_description: nlc_description@,
                new_tiploc: new_tiploc@,
            },
            CIFRecord::TIPLOCDelete {
                tiploc,
            } => RecordView::TIPLOCDelete {
                tiploc: tiploc@,
            },
            CIFRecord::Association {
                transaction_type,
                main_train_uid,
                associated_train_uid,
                association_start_date,
                association_end_date,
                association_days,
                association_category,
                association_date_indicator,
                association_location,
                base_location_suffix,
                association_location_suffix,
                diagram_type,
                association_type,
                stp_indicator,
            } => RecordView::Association {
                transaction_type: *transaction_type,
                main_train_uid: main_train_uid@,
                associated_train_uid: associated_train_uid@,
                association_start_date: association_start_date@,
                association_end_date: association_end_date@,
                association_days: association_days@,
                association_category: association_category@,
                association_date_indicator: *association_date_indicator,
                association_location: association_location@,
                base_location_suffix: base_location_suffix@,
                association_location_suffix: association_location_suffix@,
                diagram_type: *diagram_type,
                association_type: *association_type,
                stp_indicator: *stp_indicator,
            },
            CIFRecord::BasicSchedule {
                transaction_type,
                train_uid,
                date_runs_from,
                date_runs_to,
                days_run,
                bank_holiday_running,
                train_status,
                train_category,
                train_identity,
                headcode,
                course_indicator,
                train_service_code,
                portion_id,
                power_type,
                timing_load,
                speed,
                operating_characteristics,
                seating_class,
                sleepers,
                reservations,
                connection_indicator,
                catering_code,
                service_branding,
                stp_indicator,
            } => RecordView::BasicSchedule {
                transaction_type: *transaction_type,
                train_uid: train_uid@,
                date_runs_from: date_runs_from@,
                date_runs_to: date_runs_to@,
                days_run: days_run@,
                bank_holiday_running: *bank_holiday_running,
                train_status: *train_status,
                train_category: train_category@,
                train_identity: train_identity@,
                headcode: headcode@,
                course_indicator: *course_indicator,
                train_service_code: train_service_code@,
                portion_id: *portion_id,
                power_type: power_type@,
                timing_load: timing_load@,
                speed: speed@,
                operating_characteristics: operating_characteristics@,
                seating_class: *seating_class,
                sleepers: *sleepers,
                reservations: *reservations,
                connection_indicator: *connection_indicator,
                catering_code: catering_code@,
                service_branding: service_branding@,
                stp_indicator: *stp_indicator,
            },
            CIFRecord::BasicScheduleExtended {
                traction_class,
                uic_code,
                atoc_code,
                applicable_timetable_code,
            } => RecordView::BasicScheduleExtended {
                traction_class: traction_class@,
                uic_code: uic_code@,
                atoc_code: atoc_code@,
                applicable_timetable_code: *applicable_timetable_code,
            },
            CIFRecord::LocationOrigin {
                location,
                scheduled_departure_time,
                public_departure_time,
                platform,
                line,
                engineering_allowance,
                pathing_allowance,
                activity,
                performance_allowance,
            } => RecordView::LocationOrigin {
                location: location@,
                scheduled_departure_time: scheduled_departure_time@,
                public_departure_time: public_departure_time@,
                platform: platform@,
                line: line@,
                engineering_allowance: engineering_allowance@,
                pathing_allowance: pathing_allowance@,
                activity: activity@,
                performance_allowance: performance_allowance@,
            },
            CIFRecord::LocationIntermediate {
                location,
                scheduled_arrival_time,
                scheduled_departure_time,
                scheduled_pass,
                public_arrival_time,
                public_departure_time,
                platform,
                line,
                path,
                activity,
                engineering_allowance,
                pathing_allowance,
                performance_allowance,
            } => RecordView::LocationIntermediate {
                location: location@,
                scheduled_arrival_time: scheduled_arrival_time@,
                scheduled_departure_time: scheduled_departure_time@,
                scheduled_pass: scheduled_pass@,
                public_arrival_time: public_arrival_time@,
                public_departure_time: public_departure_time@,
                platform: platform@,
                line: line@,
                path: path@,
                activity: activity@,
                engineering_allowance: engineering_allowance@,
                pathing_allowance: pathing_allowance@,
                performance_allowance: performance_allowance@,
            },
            CIFRecord::ChangeEnRoute {
                location,
                train_category,
                train_identity,
                headcode,
                course_indicator,
                profit_centre_code,
                business_sector,
                power_type,
                timing_load,
                speed,
                operating_chars,
                train_class,
                sleepers,
                reservations,
                connect_indicator,
                catering_code,
                service_branding,
                traction_class,
                uic_code,
                retail_train_id,
            } => RecordView::ChangeEnRoute {
                location: location@,
                train_category: train_category@,
                train_identity: train_identity@,
                headcode: headcode@,
                course_indicator: *course_indicator,
                profit_centre_code: profit_centre_code@,
                business_sector: *business_sector,
                power_type: power_type@,
                timing_load: timing_load@,
                speed: speed@,
                operating_chars: operating_chars@,
                train_class: *train_class,
                sleepers: *sleepers,
                reservations: *reservations,
                connect_indicator: *connect_indicator,
                catering_code: catering_code@,
                service_branding: service_branding@,
                traction_class: traction_class@,
                uic_code: uic_code@,
                retail_train_id: retail_train_id@,
            },
            CIFRecord::LocationTerminate {
                location,
                scheduled_arrival_time,
                public_arrival_time,
                platform,
                path,
                activity,
            } => RecordView::LocationTerminate {
                location: location@,
                scheduled_arrival_time: scheduled_arrival_time@,
                public_arrival_time: public_arrival_time@,
                platform: platform@,
                path: path@,
                activity: activity@,
            },
            CIFRecord::Trailer => RecordView::Trailer,
        }
    }
}

impl DeepView for CIFRecord {
    type V = RecordView;

    open spec fn deep_view(&self) -> RecordView {
        self.view()
    }
}

impl RecordView {
    /// The two tag bytes that open this record's row.
    pub open spec fn tag(self) -> (u8, u8) {
        match self {
            RecordView::Header { .. } => (crate::text::H, crate::text::D),
            RecordView::TIPLOCInsert { .. } => (crate::text::T, crate::text::I),
            RecordView::TIPLOCAmend { .. } => (crate::text::T, crate::text::A),
            RecordView::TIPLOCDelete { .. } => (crate::text::T, crate::text::D),
            RecordView::Association { .. } => (crate::text::A, crate::text::A),
            RecordView::BasicSchedule { .. } => (crate::text::B, crate::text::S),
            RecordView::BasicScheduleExtended { .. } => (crate::text::B, crate::text::X),
            RecordView::LocationOrigin { .. } => (crate::text::L, crate::text::O),
            RecordView::LocationIntermediate { .. } => (crate::text::L, crate::text::I),
            RecordView::ChangeEnRoute { .. } => (crate::text::C, crate::text::R),
            RecordView::LocationTerminate { .. } => (crate::text::L, crate::text::T),
            RecordView::Trailer => (crate::text::Z, crate::text::Z),
        }
    }
}

impl CIFRecord {
    /// The two-byte kind of this record, as the tag bytes of its row.
    pub fn kind(&self) -> (r: (u8, u8))
        ensures
            r == self@.tag(),
    {
        match self {
            CIFRecord::Header { .. } => (crate::text::H, crate::text::D),
            CIFRecord::TIPLOCInsert { .. } => (crate::text::T, crate::text::I),
            CIFRecord::TIPLOCAmend { .. } => (crate::text::T, crate::text::A),
            CIFRecord::TIPLOCDelete { .. } => (crate::text::T, crate::text::D),
            CIFRecord::Association { .. } => (crate::text::A, crate::text::A),
            CIFRecord::BasicSchedule { .. } => (crate::text::B, crate::text::S),
            CIFRecord::BasicScheduleExtended { .. } => (crate::text::B, crate::text::X),
            CIFRecord::LocationOrigin { .. } => (crate::text::L, crate::text::O),
            CIFRecord::LocationIntermediate { .. } => (crate::text::L, crate::text::I),
            CIFRecord::ChangeEnRoute { .. } => (crate::text::C, crate::text::R),
            CIFRecord::LocationTerminate { .. } => (crate::text::L, crate::text::T),
            CIFRecord::Trailer => (crate::text::Z, crate::text::Z),
        }
    }
}

/// A decoded CIF feed: the records of the feed in row order.
#[derive(Debug)]
pub struct CIFFile {
    records: Vec<CIFRecord>,
}

impl View for CIFFile {
    type V = Seq<RecordView>;

    closed spec fn view(&self) -> Seq<RecordView> {
        self.records.deep_view()
    }
}

impl CIFFile {
    /// An empty feed.
    pub fn new() -> (r: Self)
        ensures
            r@ == Seq::<RecordView>::empty(),
    {
        let records: Vec<CIFRecord> = Vec::new();
        proof {
            assert(records.deep_view() =~= Seq::<RecordView>::empty());
        }
        CIFFile { records }
    }

    /// The records of the feed, in row order.
    pub fn records(&self) -> (r: &Vec<CIFRecord>)
        ensures
            r.deep_view() == self@,
    {
        &self.records
    }

    /// Appends a decoded record.
    pub(crate) fn push_record(&mut self, record: CIFRecord)
        ensures
            final(self)@ == old(self)@.push(record@),
    {
        let ghost before = self.records.deep_view();
        let ghost rv = record@;
        self.records.push(record);
        proof {
            assert(self.records.deep_view() =~= before.push(rv));
        }
    }
}

} // verus!
