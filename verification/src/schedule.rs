//! The schedule database and its domain types.
//!
//! The database keeps location reference data (TIPLOCs) and train
//! schedules, both as association lists keyed by trimmed byte strings: a
//! TIPLOC by its code, and schedules by train UID, each UID owning the
//! ordered list of its schedule variants. All reasoning is carried out on
//! the database's view, [`DatabaseView`].

use vstd::prelude::*;

use crate::codes::{
    BankHolidayRunning, Catering, OperatingCharacteristic, PowerType, Reservations, STPIndicator,
    SeatingClass, Sleepers, TimingLoad, TrainCategory, TrainStatus,
};
use crate::dates::{Date, DateTime};
use crate::daysrun::DaysRun;
use crate::text::{bytes_eq, is_trimmed, SP};
use crate::time::JourneyTime;

verus! {

/// A location reference: a timing point and its public station code.
#[derive(Debug)]
pub struct TIPLOC {
    /// The trimmed TIPLOC code of this location.
    pub tiploc: Vec<u8>,
    /// The three-letter CRS code of this location, or empty.
    pub three_alpha_code: Vec<u8>,
    /// The description of this location.
    pub description: Vec<u8>,
}

/// The mathematical reading of a [`TIPLOC`].
#[verifier::ext_equal]
pub struct TiplocView {
    pub tiploc: Seq<u8>,
    pub three_alpha_code: Seq<u8>,
    pub description: Seq<u8>,
}

impl View for TIPLOC {
    type V = TiplocView;

    open spec fn view(&self) -> TiplocView {
        TiplocView {
            tiploc: self.tiploc@,
            three_alpha_code: self.three_alpha_code@,
            description: self.description@,
        }
    }
}

impl DeepView for TIPLOC {
    type V = TiplocView;

    open spec fn deep_view(&self) -> TiplocView {
        self.view()
    }
}

/// One call of a journey at a location.
#[derive(Debug)]
pub struct JourneyLocation {
    /// The trimmed location field: a TIPLOC, possibly with a
    /// disambiguation suffix.
    pub tiploc: Vec<u8>,
    pub arrival_time: Option<JourneyTime>,
    pub departure_time: Option<JourneyTime>,
    pub passing_time: Option<JourneyTime>,
    pub public_arrival: Option<JourneyTime>,
    pub public_departure: Option<JourneyTime>,
    pub platform: Vec<u8>,
    pub line: Vec<u8>,
    pub activity: Vec<u8>,
}

/// The mathematical reading of a [`JourneyLocation`].
#[verifier::ext_equal]
pub struct JourneyLocationView {
    pub tiploc: Seq<u8>,
    pub arrival_time: Option<JourneyTime>,
    pub departure_time: Option<JourneyTime>,
    pub passing_time: Option<JourneyTime>,
    pub public_arrival: Option<JourneyTime>,
    pub public_departure: Option<JourneyTime>,
    pub platform: Seq<u8>,
    pub line: Seq<u8>,
    pub activity: Seq<u8>,
}

impl View for JourneyLocation {
    type V = JourneyLocationView;

    open spec fn view(&self) -> JourneyLocationView {
        JourneyLocationView {
            tiploc: self.tiploc@,
            arrival_time: self.arrival_time,
            departure_time: self.departure_time,
            passing_time: self.passing_time,
            public_arrival: self.public_arrival,
            public_departure: self.public_departure,
            platform: self.platform@,
            line: self.line@,
            activity: self.activity@,
        }
    }
}

impl DeepView for JourneyLocation {
    type V = JourneyLocationView;

    open spec fn deep_view(&self) -> JourneyLocationView {
        self.view()
    }
}

/// One train service: a basic schedule with its resolved codes and its
/// ordered journey.
#[derive(Debug)]
pub struct Schedule {
    /// The trimmed service identifier.
    pub train_uid: Vec<u8>,
    /// When this service starts running.
    pub runs_from: Date,
    /// When this service stops running.
    pub runs_to: Date,
    /// The days of the week this service operates on.
    pub days_run: DaysRun,
    /// Whether the service runs on bank holidays.
    pub bank_holiday_running: BankHolidayRunning,
    /// The trimmed train operating company code.
    pub atoc_code: Vec<u8>,
    /// Whether the train is subject to performance monitoring.
    pub subject_to_performance_monitoring: bool,
    pub train_status: TrainStatus,
    pub train_category: TrainCategory,
    /// The trimmed train identity field.
    pub headcode: Vec<u8>,
    pub portion_id: u8,
    pub power_type: PowerType,
    pub timing_load: TimingLoad,
    /// Speed in miles per hour; 0 when the field is absent or not numeric.
    pub speed: u32,
    pub operating_characteristics: Vec<OperatingCharacteristic>,
    pub seating_class: SeatingClass,
    pub sleepers: Sleepers,
    pub reservations: Reservations,
    pub catering: Vec<Catering>,
    pub stp_indicator: STPIndicator,
    /// The calls of the journey, in record order.
    pub journey: Vec<JourneyLocation>,
}

/// The mathematical reading of a [`Schedule`].
#[verifier::ext_equal]
pub struct ScheduleView {
    pub train_uid: Seq<u8>,
    pub runs_from: Date,
    pub runs_to: Date,
    pub days_run: DaysRun,
    pub bank_holiday_running: BankHolidayRunning,
    pub atoc_code: Seq<u8>,
    pub subject_to_performance_monitoring: bool,
    pub train_status: TrainStatus,
    pub train_category: TrainCategory,
    pub headcode: Seq<u8>,
    pub portion_id: u8,
    pub power_type: PowerType,
    pub timing_load: TimingLoad,
    pub speed: u32,
    pub operating_characteristics: Seq<OperatingCharacteristic>,
    pub seating_class: SeatingClass,
    pub sleepers: Sleepers,
    pub reservations: Reservations,
    pub catering: Seq<Catering>,
    pub stp_indicator: STPIndicator,
    pub journey: Seq<JourneyLocationView>,
}

impl View for Schedule {
    type V = ScheduleView;

    open spec fn view(&self) -> ScheduleView {
        ScheduleView {
            train_uid: self.train_uid@,
            runs_from: self.runs_from,
            runs_to: self.runs_to,
            days_run: self.days_run,
            bank_holiday_running: self.bank_holiday_running,
            atoc_code: self.atoc_code@,
            subject_to_performance_monitoring: self.subject_to_performance_monitoring,
            train_status: self.train_status,
            train_category: self.train_category,
            headcode: self.headcode@,
            portion_id: self.portion_id,
            power_type: self.power_type,
            timing_load: self.timing_load,
            speed: self.speed,
            operating_characteristics: self.operating_characteristics@,
            seating_class: self.seating_class,
            sleepers: self.sleepers,
            reservations: self.reservations,
            catering: self.catering@,
            stp_indicator: self.stp_indicator,
            journey: self.journey.deep_view(),
        }
    }
}

impl DeepView for Schedule {
    type V = ScheduleView;

    open spec fn deep_view(&self) -> ScheduleView {
        self.view()
    }
}

/// The schedule every bundle starts from, before any record has filled a
/// field.
pub open spec fn empty_schedule() -> ScheduleView {
    ScheduleView {
        train_uid: Seq::empty(),
        runs_from: Date::spec_min(),
        runs_to: Date::spec_min(),
        days_run: DaysRun::spec_empty(),
        bank_holiday_running: BankHolidayRunning::RunsNormally,
        atoc_code: Seq::empty(),
        subject_to_performance_monitoring: false,
        train_status: TrainStatus::PassengerAndParcels,
        train_category: TrainCategory::NotSpecified,
        headcode: Seq::empty(),
        portion_id: SP,
        power_type: PowerType::Diesel,
        timing_load: TimingLoad::LoadInTonnes(0),
        speed: 0,
        operating_characteristics: Seq::empty(),
        seating_class: SeatingClass::NotSpecified,
        sleepers: Sleepers::NotSpecified,
        reservations: Reservations::Possible,
        catering: Seq::empty(),
        stp_indicator: STPIndicator::PermanentAssociation,
        journey: Seq::empty(),
    }
}

impl Schedule {
    /// The schedule every bundle starts from.
    pub(crate) fn new() -> (r: Schedule)
        ensures
            r@ == empty_schedule(),
    {
        let r = Schedule {
            train_uid: Vec::new(),
            runs_from: Date::min(),
            runs_to: Date::min(),
            days_run: DaysRun::empty(),
            bank_holiday_running: BankHolidayRunning::RunsNormally,
            atoc_code: Vec::new(),
            subject_to_performance_monitoring: false,
            train_status: TrainStatus::PassengerAndParcels,
            train_category: TrainCategory::NotSpecified,
            headcode: Vec::new(),
            portion_id: SP,
            power_type: PowerType::Diesel,
            timing_load: TimingLoad::LoadInTonnes(0),
            speed: 0,
            operating_characteristics: Vec::new(),
            seating_class: SeatingClass::NotSpecified,
            sleepers: Sleepers::NotSpecified,
            reservations: Reservations::Possible,
            catering: Vec::new(),
            stp_indicator: STPIndicator::PermanentAssociation,
            journey: Vec::new(),
        };
        proof {
            assert(r.journey.deep_view() =~= Seq::<JourneyLocationView>::empty());
            assert(r@ =~= empty_schedule());
        }
        r
    }
}

/// The schedules of one train UID, in insertion order.
#[derive(Debug)]
pub struct ScheduleList {
    /// The trimmed train UID that keys this list.
    pub train_uid: Vec<u8>,
    /// The schedule variants of this UID, in insertion order.
    pub schedules: Vec<Schedule>,
}

/// The mathematical reading of a [`ScheduleList`].
#[verifier::ext_equal]
pub struct ScheduleListView {
    pub train_uid: Seq<u8>,
    pub schedules: Seq<ScheduleView>,
}

impl View for ScheduleList {
    type V = ScheduleListView;

    open spec fn view(&self) -> ScheduleListView {
        ScheduleListView { train_uid: self.train_uid@, schedules: self.schedules.deep_view() }
    }
}

impl DeepView for ScheduleList {
    type V = ScheduleListView;

    open spec fn deep_view(&self) -> ScheduleListView {
        self.view()
    }
}

/// The mathematical reading of a [`ScheduleDatabase`].
#[verifier::ext_equal]
pub struct DatabaseView {
    pub extract_date_time: DateTime,
    pub tiplocs: Seq<TiplocView>,
    pub schedules: Seq<ScheduleListView>,
}

/// The in-memory schedule database: the extract timestamp of the last
/// header applied, the known TIPLOCs, and the known schedules keyed by
/// train UID.
#[derive(Debug)]
pub struct ScheduleDatabase {
    extract_date_time: DateTime,
    tiplocs: Vec<TIPLOC>,
    schedules: Vec<ScheduleList>,
}

impl View for ScheduleDatabase {
    type V = DatabaseView;

    closed spec fn view(&self) -> DatabaseView {
        DatabaseView {
            extract_date_time: self.extract_date_time,
            tiplocs: self.tiplocs.deep_view(),
            schedules: self.schedules.deep_view(),
        }
    }
}

/// A stored TIPLOC is trimmed and at most seven bytes.
pub open spec fn tiploc_wf(t: TiplocView) -> bool {
    &&& is_trimmed(t.tiploc)
    &&& t.tiploc.len() <= 7
    &&& is_trimmed(t.three_alpha_code)
    &&& is_trimmed(t.description)
}

/// A stored journey call has a trimmed location of at most eight bytes
/// (a seven-byte TIPLOC and an optional disambiguation suffix).
pub open spec fn journey_location_wf(l: JourneyLocationView) -> bool {
    &&& is_trimmed(l.tiploc)
    &&& l.tiploc.len() <= 8
}

/// A stored schedule has a trimmed UID of at most six bytes and trimmed
/// journey locations.
pub open spec fn schedule_wf(s: ScheduleView) -> bool {
    &&& is_trimmed(s.train_uid)
    &&& s.train_uid.len() <= 6
    &&& forall|i: int| 0 <= i < s.journey.len() ==> journey_location_wf(#[trigger] s.journey[i])
}

impl DatabaseView {
    /// Well-formedness of the database: keys are unique and trimmed, and
    /// every stored schedule is keyed under its own train UID.
    pub open spec fn wf(self) -> bool {
        &&& forall|i: int, j: int|
            0 <= i < j < self.tiplocs.len() ==> self.tiplocs[i].tiploc != self.tiplocs[j].tiploc
        &&& forall|i: int| 0 <= i < self.tiplocs.len() ==> tiploc_wf(#[trigger] self.tiplocs[i])
        &&& forall|i: int, j: int|
            0 <= i < j < self.schedules.len() ==> self.schedules[i].train_uid
                != self.schedules[j].train_uid
        &&& forall|i: int|
            0 <= i < self.schedules.len() ==> is_trimmed(
                (#[trigger] self.schedules[i]).train_uid,
            ) && self.schedules[i].train_uid.len() <= 6
        &&& forall|i: int, j: int|
            0 <= i < self.schedules.len() && 0 <= j < self.schedules[i].schedules.len()
                ==> schedule_wf(#[trigger] self.schedules[i].schedules[j])
                && self.schedules[i].schedules[j].train_uid == self.schedules[i].train_uid
    }
}

/// The index of the first TIPLOC with the given code, or -1.
pub open spec fn tiploc_index_of(s: Seq<TiplocView>, key: Seq<u8>) -> int
    decreases s.len(),
{
    if s.len() == 0 {
        -1
    } else if s[0].tiploc == key {
        0
    } else {
        let r = tiploc_index_of(s.drop_first(), key);
        if r < 0 {
            -1
        } else {
            r + 1
        }
    }
}

/// What `tiploc_index_of` finds: the first index holding the key, if any.
pub proof fn lemma_tiploc_index_of(s: Seq<TiplocView>, key: Seq<u8>)
    ensures
        tiploc_index_of(s, key) == -1 ==> forall|j: int| 0 <= j < s.len() ==> (#[trigger] s[j]).tiploc != key,
        tiploc_index_of(s, key) >= 0 ==> 0 <= tiploc_index_of(s, key) < s.len() && s[tiploc_index_of(s, key)].tiploc == key
            && forall|j: int| 0 <= j < tiploc_index_of(s, key) ==> (#[trigger] s[j]).tiploc != key,
    decreases s.len(),
{
    if s.len() > 0 && s[0].tiploc != key {
        lemma_tiploc_index_of(s.drop_first(), key);
        assert(forall|j: int| 1 <= j < s.len() ==> #[trigger] s[j] == s.drop_first()[j - 1]);
    }
}

/// The stored TIPLOC under a code, if any.
pub open spec fn lookup_tiploc(s: Seq<TiplocView>, key: Seq<u8>) -> Option<TiplocView> {
    if tiploc_index_of(s, key) >= 0 {
        Some(s[tiploc_index_of(s, key)])
    } else {
        None
    }
}

/// The tiploc list after storing `t` under its own code: replaced in
/// place when the code is present, appended otherwise.
pub open spec fn upsert_tiploc(s: Seq<TiplocView>, t: TiplocView) -> Seq<TiplocView> {
    let i = tiploc_index_of(s, t.tiploc);
    if i >= 0 {
        s.update(i, t)
    } else {
        s.push(t)
    }
}

/// The tiploc list after removing a code; missing codes are a no-op.
pub open spec fn remove_tiploc(s: Seq<TiplocView>, key: Seq<u8>) -> Seq<TiplocView> {
    let i = tiploc_index_of(s, key);
    if i >= 0 {
        s.remove(i)
    } else {
        s
    }
}

/// The index of the schedule list of a train UID, or -1.
pub open spec fn schedule_index_of(s: Seq<ScheduleListView>, uid: Seq<u8>) -> int
    decreases s.len(),
{
    if s.len() == 0 {
        -1
    } else if s[0].train_uid == uid {
        0
    } else {
        let r = schedule_index_of(s.drop_first(), uid);
        if r < 0 {
            -1
        } else {
            r + 1
        }
    }
}

/// What `schedule_index_of` finds: the first index holding the UID, if
/// any.
pub proof fn lemma_schedule_index_of(s: Seq<ScheduleListView>, uid: Seq<u8>)
    ensures
        schedule_index_of(s, uid) == -1 ==> forall|j: int| 0 <= j < s.len() ==> (#[trigger] s[j]).train_uid != uid,
        schedule_index_of(s, uid) >= 0 ==> 0 <= schedule_index_of(s, uid) < s.len()
            && s[schedule_index_of(s, uid)].train_uid == uid
            && forall|j: int| 0 <= j < schedule_index_of(s, uid) ==> (#[trigger] s[j]).train_uid != uid,
    decreases s.len(),
{
    if s.len() > 0 && s[0].train_uid != uid {
        lemma_schedule_index_of(s.drop_first(), uid);
        assert(forall|j: int| 1 <= j < s.len() ==> #[trigger] s[j] == s.drop_first()[j - 1]);
    }
}

/// The stored schedules of a train UID, if any.
pub open spec fn lookup_schedules(s: Seq<ScheduleListView>, uid: Seq<u8>) -> Option<
    Seq<ScheduleView>,
> {
    if schedule_index_of(s, uid) >= 0 {
        Some(s[schedule_index_of(s, uid)].schedules)
    } else {
        None
    }
}

/// The schedule lists after appending `sch` under `uid`, creating the
/// list when the UID is new.
pub open spec fn append_schedule(s: Seq<ScheduleListView>, uid: Seq<u8>, sch: ScheduleView) -> Seq<
    ScheduleListView,
> {
    let i = schedule_index_of(s, uid);
    if i >= 0 {
        s.update(i, ScheduleListView { train_uid: uid, schedules: s[i].schedules.push(sch) })
    } else {
        s.push(ScheduleListView { train_uid: uid, schedules: seq![sch] })
    }
}

/// The schedule lists after appending `sch` under `uid` only when the UID
/// is already present.
pub open spec fn append_schedule_if_present(
    s: Seq<ScheduleListView>,
    uid: Seq<u8>,
    sch: ScheduleView,
) -> Seq<ScheduleListView> {
    let i = schedule_index_of(s, uid);
    if i >= 0 {
        s.update(i, ScheduleListView { train_uid: uid, schedules: s[i].schedules.push(sch) })
    } else {
        s
    }
}

/// The schedule lists after removing a train UID entirely; a missing UID
/// is a no-op.
pub open spec fn remove_schedules(s: Seq<ScheduleListView>, uid: Seq<u8>) -> Seq<ScheduleListView> {
    let i = schedule_index_of(s, uid);
    if i >= 0 {
        s.remove(i)
    } else {
        s
    }
}

impl ScheduleDatabase {
    /// An empty database: no TIPLOCs, no schedules, and the placeholder
    /// extract timestamp.
    pub fn new() -> (r: Self)
        ensures
            r@ == ScheduleDatabase::spec_new(),
            r@.wf(),
    {
        let tiplocs: Vec<TIPLOC> = Vec::new();
        let schedules: Vec<ScheduleList> = Vec::new();
        let r = ScheduleDatabase { extract_date_time: DateTime::min(), tiplocs, schedules };
        proof {
            assert(r@.tiplocs =~= Seq::<TiplocView>::empty());
            assert(r@.schedules =~= Seq::<ScheduleListView>::empty());
        }
        r
    }

    /// The value of [`ScheduleDatabase::new`].
    pub open spec fn spec_new() -> DatabaseView {
        DatabaseView {
            extract_date_time: DateTime::spec_min(),
            tiplocs: Seq::empty(),
            schedules: Seq::empty(),
        }
    }

    /// The extract timestamp of the most recent header applied.
    pub fn extract_date_time(&self) -> (r: &DateTime)
        ensures
            r == self@.extract_date_time,
    {
        &self.extract_date_time
    }

    /// The stored TIPLOCs.
    pub fn tiplocs(&self) -> (r: &Vec<TIPLOC>)
        ensures
            r.deep_view() == self@.tiplocs,
    {
        &self.tiplocs
    }

    /// The stored schedule lists, one per train UID.
    pub fn schedules(&self) -> (r: &Vec<ScheduleList>)
        ensures
            r.deep_view() == self@.schedules,
    {
        &self.schedules
    }

    /// The index of the stored TIPLOC with the given trimmed code.
    pub(crate) fn find_tiploc_index(&self, key: &[u8]) -> (r: Option<usize>)
        ensures
            match r {
                Some(i) => tiploc_index_of(self@.tiplocs, key@) == i as int,
                None => tiploc_index_of(self@.tiplocs, key@) == -1,
            },
    {
        proof {
            lemma_tiploc_index_of(self@.tiplocs, key@);
        }
        let mut i: usize = 0;
        while i < self.tiplocs.len()
            invariant
                0 <= i <= self.tiplocs.len(),
                self.tiplocs.deep_view() == self@.tiplocs,
                self.tiplocs.deep_view().len() == self.tiplocs.len(),
                forall|j: int| 0 <= j < i ==> (#[trigger] self@.tiplocs[j]).tiploc != key@,
                tiploc_index_of(self@.tiplocs, key@) == -1 || tiploc_index_of(
                    self@.tiplocs,
                    key@,
                ) >= i,
            decreases self.tiplocs.len() - i,
        {
            proof {
                assert(self.tiplocs.deep_view()[i as int] == self.tiplocs@[i as int].deep_view());
            }
            if bytes_eq(self.tiplocs[i].tiploc.as_slice(), key) {
                proof {
                    lemma_tiploc_index_of(self@.tiplocs, key@);
                }
                return Some(i);
            }
            proof {
                lemma_tiploc_index_of(self@.tiplocs, key@);
            }
            i = i + 1;
        }
        proof {
            lemma_tiploc_index_of(self@.tiplocs, key@);
        }
        None
    }

    /// The index of the schedule list of the given trimmed train UID.
    pub(crate) fn find_schedule_index(&self, uid: &[u8]) -> (r: Option<usize>)
        ensures
            match r {
                Some(i) => schedule_index_of(self@.schedules, uid@) == i as int,
                None => schedule_index_of(self@.schedules, uid@) == -1,
            },
    {
        proof {
            lemma_schedule_index_of(self@.schedules, uid@);
        }
        let mut i: usize = 0;
        while i < self.schedules.len()
            invariant
                0 <= i <= self.schedules.len(),
                self.schedules.deep_view() == self@.schedules,
                self.schedules.deep_view().len() == self.schedules.len(),
                forall|j: int| 0 <= j < i ==> (#[trigger] self@.schedules[j]).train_uid != uid@,
                schedule_index_of(self@.schedules, uid@) == -1 || schedule_index_of(
                    self@.schedules,
                    uid@,
                ) >= i,
            decreases self.schedules.len() - i,
        {
            proof {
                assert(self.schedules.deep_view()[i as int] == self.schedules@[i as int].deep_view());
            }
            if bytes_eq(self.schedules[i].train_uid.as_slice(), uid) {
                proof {
                    lemma_schedule_index_of(self@.schedules, uid@);
                }
                return Some(i);
            }
            proof {
                lemma_schedule_index_of(self@.schedules, uid@);
            }
            i = i + 1;
        }
        proof {
            lemma_schedule_index_of(self@.schedules, uid@);
        }
        None
    }

    /// Stores `t` under its own code, replacing any stored TIPLOC with
    /// that code.
    pub(crate) fn upsert_tiploc_entry(&mut self, t: TIPLOC)
        ensures
            final(self)@.tiplocs == upsert_tiploc(old(self)@.tiplocs, t@),
            final(self)@.extract_date_time == old(self)@.extract_date_time,
            final(self)@.schedules == old(self)@.schedules,
    {
        let ghost before = self.tiplocs.deep_view();
        let ghost tv = t@;
        let found = self.find_tiploc_index(t.tiploc.as_slice());
        match found {
            Some(i) => {
                proof {
                    lemma_tiploc_index_of(before, tv.tiploc);
                }
                self.tiplocs.set(i, t);
                proof {
                    assert(self.tiplocs.deep_view() =~= before.update(i as int, tv));
                }
            },
            None => {
                self.tiplocs.push(t);
                proof {
                    assert(self.tiplocs.deep_view() =~= before.push(tv));
                }
            },
        }
    }

    /// Removes the stored TIPLOC with the given trimmed code, if any.
    pub(crate) fn remove_tiploc_entry(&mut self, key: &[u8])
        ensures
            final(self)@.tiplocs == remove_tiploc(old(self)@.tiplocs, key@),
            final(self)@.extract_date_time == old(self)@.extract_date_time,
            final(self)@.schedules == old(self)@.schedules,
    {
        let ghost before = self.tiplocs.deep_view();
        let found = self.find_tiploc_index(key);
        match found {
            Some(i) => {
                proof {
                    lemma_tiploc_index_of(before, key@);
                }
                self.tiplocs.remove(i);
                proof {
                    assert(self.tiplocs.deep_view() =~= before.remove(i as int));
                }
            },
            None => {},
        }
    }

    /// Clears the stored TIPLOCs.
    pub(crate) fn clear_tiplocs(&mut self)
        ensures
            final(self)@.tiplocs == Seq::<TiplocView>::empty(),
            final(self)@.extract_date_time == old(self)@.extract_date_time,
            final(self)@.schedules == old(self)@.schedules,
    {
        self.tiplocs.clear();
        proof {
            assert(self.tiplocs.deep_view() =~= Seq::<TiplocView>::empty());
        }
    }

    /// Sets the extract timestamp.
    pub(crate) fn set_extract_date_time(&mut self, dt: DateTime)
        ensures
            final(self)@.extract_date_time == dt,
            final(self)@.tiplocs == old(self)@.tiplocs,
            final(self)@.schedules == old(self)@.schedules,
    {
        self.extract_date_time = dt;
    }

    /// Appends `sch` under `uid`, creating the list when the UID is new.
    pub(crate) fn append_schedule_entry(&mut self, uid: Vec<u8>, sch: Schedule)
        requires
            uid@ == sch@.train_uid,
        ensures
            final(self)@.schedules == append_schedule(old(self)@.schedules, uid@, sch@),
            final(self)@.extract_date_time == old(self)@.extract_date_time,
            final(self)@.tiplocs == old(self)@.tiplocs,
    {
        let ghost before = self.schedules.deep_view();
        let ghost schv = sch@;
        let found = self.find_schedule_index(uid.as_slice());
        match found {
            Some(i) => {
                proof {
                    lemma_schedule_index_of(before, uid@);
                }
                let mut entry = self.schedules.remove(i);
                let ghost entryv = entry@;
                entry.schedules.push(sch);
                proof {
                    assert(entry.schedules.deep_view() =~= entryv.schedules.push(schv));
                }
                self.schedules.insert(i, entry);
                proof {
                    assert(self.schedules.deep_view() =~= before.update(
                        i as int,
                        ScheduleListView {
                            train_uid: entryv.train_uid,
                            schedules: entryv.schedules.push(schv),
                        },
                    ));
                    assert(before[i as int].train_uid == uid@);
                    assert(ScheduleListView {
                        train_uid: entryv.train_uid,
                        schedules: entryv.schedules.push(schv),
                    } == ScheduleListView {
                        train_uid: uid@,
                        schedules: before[i as int].schedules.push(schv),
                    });
                }
            },
            None => {
                let mut schedules_one: Vec<Schedule> = Vec::new();
                schedules_one.push(sch);
                proof {
                    assert(schedules_one.deep_view() =~= seq![schv]);
                }
                self.schedules.push(ScheduleList { train_uid: uid, schedules: schedules_one });
                proof {
                    assert(self.schedules.deep_view() =~= before.push(
                        ScheduleListView { train_uid: uid@, schedules: seq![schv] },
                    ));
                }
            },
        }
    }

    /// Appends `sch` under `uid` only when the UID is already present.
    pub(crate) fn append_schedule_entry_if_present(&mut self, uid: &[u8], sch: Schedule)
        requires
            uid@ == sch@.train_uid,
        ensures
            final(self)@.schedules == append_schedule_if_present(
                old(self)@.schedules,
                uid@,
                sch@,
            ),
            final(self)@.extract_date_time == old(self)@.extract_date_time,
            final(self)@.tiplocs == old(self)@.tiplocs,
    {
        let ghost before = self.schedules.deep_view();
        let ghost schv = sch@;
        let found = self.find_schedule_index(uid);
        match found {
            Some(i) => {
                proof {
                    lemma_schedule_index_of(before, uid@);
                }
                let mut entry = self.schedules.remove(i);
                let ghost entryv = entry@;
                entry.schedules.push(sch);
                proof {
                    assert(entry.schedules.deep_view() =~= entryv.schedules.push(schv));
                }
                self.schedules.insert(i, entry);
                proof {
                    assert(self.schedules.deep_view() =~= before.update(
                        i as int,
                        ScheduleListView {
                            train_uid: entryv.train_uid,
                            schedules: entryv.schedules.push(schv),
                        },
                    ));
                    assert(before[i as int].train_uid == uid@);
                    assert(ScheduleListView {
                        train_uid: entryv.train_uid,
                        schedules: entryv.schedules.push(schv),
                    } == ScheduleListView {
                        train_uid: uid@,
                        schedules: before[i as int].schedules.push(schv),
                    });
                }
            },
            None => {},
        }
    }

    /// Removes every schedule of a train UID; a missing UID is a no-op.
    pub(crate) fn remove_schedule_entry(&mut self, uid: &[u8])
        ensures
            final(self)@.schedules == remove_schedules(old(self)@.schedules, uid@),
            final(self)@.extract_date_time == old(self)@.extract_date_time,
            final(self)@.tiplocs == old(self)@.tiplocs,
    {
        let ghost before = self.schedules.deep_view();
        let found = self.find_schedule_index(uid);
        match found {
            Some(i) => {
                proof {
                    lemma_schedule_index_of(before, uid@);
                }
                self.schedules.remove(i);
                proof {
                    assert(self.schedules.deep_view() =~= before.remove(i as int));
                }
            },
            None => {},
        }
    }
}

impl Default for ScheduleDatabase {
    /// The same as [`ScheduleDatabase::new`].
    fn default() -> (r: Self)
        ensures
            r@ == ScheduleDatabase::spec_new(),
            r@.wf(),
    {
        ScheduleDatabase::new()
    }
}

/// The CRS codes that answer a TIPLOC lookup: the stored code's own CRS
/// when it is non-empty, found by first trying the trimmed query exactly
/// and then dropping trailing bytes one at a time.
pub open spec fn crs_candidates(tiplocs: Seq<TiplocView>, key: Seq<u8>) -> Seq<Seq<u8>>
    decreases key.len(),
{
    if key.len() == 0 {
        Seq::empty()
    } else {
        match lookup_tiploc(tiplocs, key) {
            Some(t) => {
                if t.three_alpha_code.len() > 0 {
                    seq![t.three_alpha_code]
                } else {
                    crs_candidates(tiplocs, key.drop_last())
                }
            },
            None => crs_candidates(tiplocs, key.drop_last()),
        }
    }
}

impl ScheduleDatabase {
    /// Looks up the candidate CRS codes for a possibly padded or
    /// suffix-bearing TIPLOC: an exact match on the trimmed query wins;
    /// on a miss, or when the match has no CRS, trailing bytes are
    /// dropped one at a time until a stored TIPLOC with a CRS answers.
    /// The answer is a single-element list, or empty on exhaustion.
    pub fn get_crs_from_tiploc(&self, tiploc: &[u8]) -> (r: Vec<Vec<u8>>)
        ensures
            r.deep_view() == crs_candidates(self@.tiplocs, crate::text::trim_spaces(tiploc@)),
    {
        let mut key = crate::text::trim_bytes(tiploc);
        let mut r: Vec<Vec<u8>> = Vec::new();
        proof {
            assert(r.deep_view() =~= Seq::<Seq<u8>>::empty());
        }
        while key.len() > 0
            invariant
                crs_candidates(self@.tiplocs, crate::text::trim_spaces(tiploc@)) == crs_candidates(
                    self@.tiplocs,
                    key@,
                ),
                r@.len() == 0,
            decreases key@.len(),
        {
            let found = self.find_tiploc_index(key.as_slice());
            proof {
                lemma_tiploc_index_of(self@.tiplocs, key@);
            }
            match found {
                Some(i) => {
                    proof {
                        assert(self.tiplocs.deep_view()[i as int] == self.tiplocs@[
                            i as int
                        ].deep_view());
                    }
                    let entry = &self.tiplocs[i];
                    if entry.three_alpha_code.len() > 0 {
                        let crs = crate::text::copy_bytes(entry.three_alpha_code.as_slice());
                        r.push(crs);
                        proof {
                            assert(r@.len() == 1);
                            assert(r@[0].deep_view() =~= r@[0]@);
                            assert(r@[0]@ == self@.tiplocs[i as int].three_alpha_code);
                            assert(r.deep_view() =~= seq![
                                self@.tiplocs[i as int].three_alpha_code,
                            ]);
                        }
                        return r;
                    }
                },
                None => {},
            }
            key.pop();
        }
        proof {
            assert(r.deep_view() =~= Seq::<Seq<u8>>::empty());
        }
        r
    }
}

} // verus!
