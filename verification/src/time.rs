//! Half-minute-precise journey times.
//!
//! Location records carry times as `HHMM` (public times) or `HHMMX`
//! (scheduled times), where the fifth byte is `H` for "plus half a minute"
//! or a space for "on the minute".

use vstd::prelude::*;
use crate::text::SP;

verus! {

/// ASCII `H`, the half-minute marker.
pub const HALF_MARK: u8 = 72;

/// A wall-clock time with half-minute precision.
#[derive(Debug, Clone, Copy, PartialEq, Eq, Structural)]
pub struct JourneyTime {
    pub hour: u8,
    pub minute: u8,
    pub half: bool,
}

impl JourneyTime {
    /// The time names a real minute of the day.
    pub open spec fn wf(self) -> bool {
        self.hour < 24 && self.minute < 60
    }

    pub fn hour(&self) -> (r: u8)
        ensures
            r == self.hour,
    {
        self.hour
    }

    pub fn minute(&self) -> (r: u8)
        ensures
            r == self.minute,
    {
        self.minute
    }

    pub fn half(&self) -> (r: bool)
        ensures
            r == self.half,
    {
        self.half
    }
}

/// The journey time named by a four- or five-byte field: two digit pairs
/// for a real hour and minute, and an optional fifth byte that must be `H`
/// (half past the minute) or a space. Anything else is no journey time.
pub open spec fn journey_time_of(s: Seq<u8>) -> Option<JourneyTime> {
    if s.len() == 4 || s.len() == 5 {
        match crate::dates::hhmm_pair_of(s) {
            Some(hm) => {
                if s.len() == 4 {
                    Some(JourneyTime { hour: hm.0, minute: hm.1, half: false })
                } else if s[4] == HALF_MARK {
                    Some(JourneyTime { hour: hm.0, minute: hm.1, half: true })
                } else if s[4] == SP {
                    Some(JourneyTime { hour: hm.0, minute: hm.1, half: false })
                } else {
                    None
                }
            },
            None => None,
        }
    } else {
        None
    }
}

impl JourneyTime {
    /// Reads a journey time field.
    pub fn parse(s: &[u8]) -> (r: Option<JourneyTime>)
        ensures
            r == journey_time_of(s@),
            r matches Some(t) ==> t.wf(),
    {
        if s.len() != 4 && s.len() != 5 {
            return None;
        }
        let hm = crate::dates::parse_hhmm_pair(s);
        match hm {
            Some((h, m)) => {
                if s.len() == 4 {
                    Some(JourneyTime { hour: h, minute: m, half: false })
                } else if s[4] == HALF_MARK {
                    Some(JourneyTime { hour: h, minute: m, half: true })
                } else if s[4] == SP {
                    Some(JourneyTime { hour: h, minute: m, half: false })
                } else {
                    None
                }
            },
            None => None,
        }
    }
}

} // verus!
