//! Facility records decoded from the published dataset. A record's coordinate
//! is of whatever type the caller uses for positions; the library only moves it.
use vstd::prelude::*;

verus! {

/// One decoded facility. Kinds that reconciliation does not handle are kept
/// as `Other` so that decoding never fails on them.
#[derive(Debug)]
pub enum FacilityRecord<C> {
    /// An airport; `icao` is its ICAO location indicator, when it has one.
    Airport { designator: String, icao: Option<String>, coordinate: C },
    /// A VOR; `frequency` in thousandths of a MHz.
    Vor { designator: String, coordinate: C, frequency: u64 },
    /// An NDB; `frequency` in thousandths of a kHz.
    Ndb { designator: String, coordinate: C, frequency: u64 },
    /// A designated point (waypoint).
    Waypoint { designator: String, coordinate: C },
    Other,
}

} // verus!
