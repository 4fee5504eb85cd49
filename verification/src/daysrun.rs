//! The days-of-week set of a schedule.
//!
//! A basic schedule record carries a seven-byte `0`/`1` field, one byte per
//! day, Monday first. In the CIF bitmask reading, Monday is the most
//! significant of the seven bits and Sunday the least.

use vstd::prelude::*;

use crate::text::{N0, N1};

verus! {

/// The set of days of the week a service runs on.
#[derive(Debug, Clone, Copy, PartialEq, Eq, Structural)]
pub struct DaysRun {
    pub monday: bool,
    pub tuesday: bool,
    pub wednesday: bool,
    pub thursday: bool,
    pub friday: bool,
    pub saturday: bool,
    pub sunday: bool,
}

impl DaysRun {
    /// The empty set: the service runs on no day.
    pub fn empty() -> (r: DaysRun)
        ensures
            r == DaysRun::spec_empty(),
    {
        DaysRun {
            monday: false,
            tuesday: false,
            wednesday: false,
            thursday: false,
            friday: false,
            saturday: false,
            sunday: false,
        }
    }

    /// The value of [`DaysRun::empty`].
    pub open spec fn spec_empty() -> DaysRun {
        DaysRun {
            monday: false,
            tuesday: false,
            wednesday: false,
            thursday: false,
            friday: false,
            saturday: false,
            sunday: false,
        }
    }

    /// The seven-bit CIF bitmask for this set, Monday as the most
    /// significant bit and Sunday as the least.
    pub open spec fn spec_bits(self) -> int {
        64 * (if self.monday {
            1int
        } else {
            0int
        }) + 32 * (if self.tuesday {
            1int
        } else {
            0int
        }) + 16 * (if self.wednesday {
            1int
        } else {
            0int
        }) + 8 * (if self.thursday {
            1int
        } else {
            0int
        }) + 4 * (if self.friday {
            1int
        } else {
            0int
        }) + 2 * (if self.saturday {
            1int
        } else {
            0int
        }) + (if self.sunday {
            1int
        } else {
            0int
        })
    }

    /// The seven-bit CIF bitmask for this set.
    pub fn bits(&self) -> (r: u8)
        ensures
            r == self.spec_bits(),
            r < 128,
    {
        let mut r: u8 = 0;
        if self.monday {
            r = r + 64;
        }
        if self.tuesday {
            r = r + 32;
        }
        if self.wednesday {
            r = r + 16;
        }
        if self.thursday {
            r = r + 8;
        }
        if self.friday {
            r = r + 4;
        }
        if self.saturday {
            r = r + 2;
        }
        if self.sunday {
            r = r + 1;
        }
        r
    }
}

/// The days-run set named by a seven-byte field of `0`s and `1`s, Monday
/// first. Any other byte, or any other length, is no days-run set.
pub open spec fn days_run_of(s: Seq<u8>) -> Option<DaysRun> {
    if s.len() == 7 && (forall|i: int| 0 <= i < 7 ==> s[i] == N0 || s[i] == N1) {
        Some(
            DaysRun {
                monday: s[0] == N1,
                tuesday: s[1] == N1,
                wednesday: s[2] == N1,
                thursday: s[3] == N1,
                friday: s[4] == N1,
                saturday: s[5] == N1,
                sunday: s[6] == N1,
            },
        )
    } else {
        None
    }
}

/// Reads a seven-byte days-run field.
pub fn parse_days_run(s: &[u8]) -> (r: Option<DaysRun>)
    ensures
        r == days_run_of(s@),
{
    if s.len() != 7 {
        return None;
    }
    let mut i: usize = 0;
    while i < 7
        invariant
            0 <= i <= 7,
            s@.len() == 7,
            forall|j: int| 0 <= j < i ==> s@[j] == N0 || s@[j] == N1,
        decreases 7 - i,
    {
        if s[i] != N0 && s[i] != N1 {
            return None;
        }
        i = i + 1;
    }
    Some(
        DaysRun {
            monday: s[0] == N1,
            tuesday: s[1] == N1,
            wednesday: s[2] == N1,
            thursday: s[3] == N1,
            friday: s[4] == N1,
            saturday: s[5] == N1,
            sunday: s[6] == N1,
        },
    )
}

} // verus!
