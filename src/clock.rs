//! Wall-clock time as calendar fields, and the stamp that names a backup file.
use chrono::{Datelike as _, Timelike as _};
use vstd::prelude::*;

use crate::text::{padded, push_padded};

verus! {

/// A UTC date and time to the second.
#[derive(Clone, Copy, Debug, PartialEq, Eq, Structural)]
pub struct Timestamp {
    pub year: i32,
    pub month: u32,
    pub day: u32,
    pub hour: u32,
    pub minute: u32,
    pub second: u32,
}

impl Timestamp {
    /// The fields lie in their calendar ranges; the year is not before 0.
    pub open spec fn wf(&self) -> bool {
        &&& 0 <= self.year
        &&& 1 <= self.month <= 12
        &&& 1 <= self.day <= 31
        &&& self.hour < 24
        &&& self.minute < 60
        &&& self.second < 60
    }

    /// The present time.
    pub fn now() -> (r: Timestamp)
        ensures
            r.wf(),
    {
        utc_now()
    }

    /// Writes the time as `YYYYMMDD_HHMMSS`.
    pub fn backup_stamp(&self) -> (r: String)
        requires
            self.wf(),
        ensures
            r@ == stamp_text(*self),
    {
        let mut s = String::new();
        push_padded(&mut s, self.year as u64, 4);
        push_padded(&mut s, self.month as u64, 2);
        push_padded(&mut s, self.day as u64, 2);
        proof { reveal_strlit("_"); }
        s.append("_");
        push_padded(&mut s, self.hour as u64, 2);
        push_padded(&mut s, self.minute as u64, 2);
        push_padded(&mut s, self.second as u64, 2);
        s
    }
}

/// `YYYYMMDD_HHMMSS`, each field zero-padded to its width.
pub open spec fn stamp_text(t: Timestamp) -> Seq<char> {
    padded(t.year as nat, 4) + padded(t.month as nat, 2) + padded(t.day as nat, 2) + seq!['_']
        + padded(t.hour as nat, 2) + padded(t.minute as nat, 2) + padded(t.second as nat, 2)
}

/// Relies on chrono's `Utc::now`, which counts from the Unix epoch (so the year
/// is at least 1970), and on its `Datelike`/`Timelike` accessors, documented to
/// return a month in 1..=12, a day in 1..=31, an hour in 0..=23 and a minute and
/// second in 0..=59.
#[verifier::external_body]
pub(crate) fn utc_now() -> (r: Timestamp)
    ensures
        r.wf(),
        r.year >= 1970,
{
    let now = chrono::Utc::now();
    Timestamp {
        year: now.year(),
        month: now.month(),
        day: now.day(),
        hour: now.hour(),
        minute: now.minute(),
        second: now.second(),
    }
}

} // verus!
