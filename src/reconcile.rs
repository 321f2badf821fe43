//! The match-then-update-or-insert fold of facility records into local data.
//!
//! An entity that matches a record by identity gets the record's coordinate
//! and keeps every other field. A record without a match is inserted, except
//! that a waypoint becomes a new fix only when its designator looks like a
//! named fix. Proximity of fixes is judged by a caller-supplied distance
//! function, in whole metres, which may be any function at all: every
//! contract below holds whatever values it returns.
use vstd::prelude::*;

use crate::facility::FacilityRecord;
use crate::frequency::{format_frequency, freq_text, is_digit};
use crate::local::{filed_under, IntersectionMap, LocalAirport, LocalFix, LocalNavaid, SectorData};
use crate::message::{Level, Message};

verus! {

/// A fix lies near a record when their distance is below this many metres.
pub const FIX_MATCH_RADIUS_M: u64 = 1000;

/// The airspace class given to an airport that reconciliation adds.
pub const NEW_AIRPORT_AIRSPACE: &'static str = "D";

pub open spec fn opt_text(o: Option<String>) -> Option<Seq<char>> {
    match o {
        Some(s) => Some(s@),
        None => None,
    }
}

/// One debug message with text `text` was appended to the log.
pub open spec fn logged(old_log: Seq<Message>, new_log: Seq<Message>, text: Seq<char>) -> bool {
    &&& new_log.len() == old_log.len() + 1
    &&& new_log.drop_last() == old_log
    &&& new_log.last().content@ == text
    &&& new_log.last().level == Level::Debug
}

/// `i` is the first airport whose designator is `icao`.
pub open spec fn first_airport<C>(airports: Seq<LocalAirport<C>>, icao: Seq<char>, i: int) -> bool {
    &&& 0 <= i < airports.len()
    &&& airports[i].designator@ == icao
    &&& forall|j: int| 0 <= j < i ==> (#[trigger] airports[j]).designator@ != icao
}

/// What reconciling an airport record does to the airport list and the log.
pub open spec fn airport_reconciled<C>(
    old: Seq<LocalAirport<C>>,
    old_log: Seq<Message>,
    icao: Option<Seq<char>>,
    c: C,
    new: Seq<LocalAirport<C>>,
    new_log: Seq<Message>,
) -> bool {
    match icao {
        None => new == old && new_log == old_log,
        Some(d) => if exists|i: int| 0 <= i < old.len() && (#[trigger] old[i]).designator@ == d {
            exists|i: int|
                first_airport(old, d, i) && new == old.update(
                    i,
                    LocalAirport { coordinate: c, ..old[i] },
                ) && new_log == old_log
        } else {
            &&& new.len() == old.len() + 1
            &&& new.drop_last() == old
            &&& new.last().designator@ == d
            &&& new.last().coordinate == c
            &&& new.last().ctr_airspace@ == NEW_AIRPORT_AIRSPACE@
            &&& logged(old_log, new_log, "Adding new airport: "@ + d)
        },
    }
}

/// `i` is the first navaid with designator `d` and frequency text `text`.
pub open spec fn first_navaid<C>(
    navaids: Seq<LocalNavaid<C>>,
    d: Seq<char>,
    text: Seq<char>,
    i: int,
) -> bool {
    &&& 0 <= i < navaids.len()
    &&& navaids[i].designator@ == d
    &&& navaids[i].frequency@ == text
    &&& forall|j: int|
        0 <= j < i ==> !((#[trigger] navaids[j]).designator@ == d && navaids[j].frequency@ == text)
}

/// What reconciling a VOR or NDB record (`kind` names which) does to its
/// list and the log. The record's frequency is compared as its text.
pub open spec fn navaid_reconciled<C>(
    old: Seq<LocalNavaid<C>>,
    old_log: Seq<Message>,
    kind: Seq<char>,
    d: Seq<char>,
    c: C,
    frequency: u64,
    new: Seq<LocalNavaid<C>>,
    new_log: Seq<Message>,
) -> bool {
    let text = freq_text(frequency as nat);
    if exists|i: int|
        0 <= i < old.len() && (#[trigger] old[i]).designator@ == d && old[i].frequency@ == text {
        exists|i: int|
            first_navaid(old, d, text, i) && new == old.update(
                i,
                LocalNavaid { coordinate: c, ..old[i] },
            ) && new_log == old_log
    } else {
        &&& new.len() == old.len() + 1
        &&& new.drop_last() == old
        &&& new.last().designator@ == d
        &&& new.last().coordinate == c
        &&& new.last().frequency@ == text
        &&& logged(old_log, new_log, "Adding new "@ + kind + ": "@ + d + " "@ + text)
    }
}

/// `f` reported a distance under the match radius from `a` to `b`.
pub open spec fn within_radius<C, F: Fn(C, C) -> u64>(f: F, a: C, b: C) -> bool {
    exists|m: u64| #[trigger] call_ensures(f, (a, b), m) && m < FIX_MATCH_RADIUS_M
}

/// `f` reported a distance of at least the match radius from `a` to `b`.
pub open spec fn beyond_radius<C, F: Fn(C, C) -> u64>(f: F, a: C, b: C) -> bool {
    exists|m: u64| #[trigger] call_ensures(f, (a, b), m) && m >= FIX_MATCH_RADIUS_M
}

/// A designator that may be inserted as a new fix: five characters, the
/// first of which is not a decimal digit.
pub open spec fn is_named_fix(d: Seq<char>) -> bool {
    d.len() == 5 && !is_digit(d[0])
}

/// Every fix designated `d` lies beyond the radius of `c`.
pub open spec fn no_fix_within<C, F: Fn(C, C) -> u64>(
    fixes: Seq<LocalFix<C>>,
    d: Seq<char>,
    c: C,
    f: F,
) -> bool {
    forall|j: int|
        0 <= j < fixes.len() && (#[trigger] fixes[j]).designator@ == d ==> beyond_radius(
            f,
            c,
            fixes[j].coordinate,
        )
}

/// `i` is the first fix designated `d` within the radius of `c`.
pub open spec fn first_fix_within<C, F: Fn(C, C) -> u64>(
    fixes: Seq<LocalFix<C>>,
    d: Seq<char>,
    c: C,
    f: F,
    i: int,
) -> bool {
    &&& 0 <= i < fixes.len()
    &&& fixes[i].designator@ == d
    &&& within_radius(f, c, fixes[i].coordinate)
    &&& no_fix_within(fixes.take(i), d, c, f)
}

/// What reconciling a waypoint record does to a list of fixes and the log.
pub open spec fn fixes_reconciled<C, F: Fn(C, C) -> u64>(
    old: Seq<LocalFix<C>>,
    old_log: Seq<Message>,
    d: Seq<char>,
    c: C,
    f: F,
    new: Seq<LocalFix<C>>,
    new_log: Seq<Message>,
) -> bool {
    ||| exists|i: int|
        first_fix_within(old, d, c, f, i) && new == old.update(i, LocalFix { coordinate: c, ..old[i] })
            && new_log == old_log
    ||| no_fix_within(old, d, c, f) && if is_named_fix(d) {
        &&& new.len() == old.len() + 1
        &&& new.drop_last() == old
        &&& new.last().designator@ == d
        &&& new.last().coordinate == c
        &&& logged(old_log, new_log, "Adding new Fix: "@ + d)
    } else {
        new == old && new_log == old_log
    }
}

/// Reconciles one airport record with the airport list.
pub fn update_airport<C: Copy>(
    airports: &mut Vec<LocalAirport<C>>,
    icao: &Option<String>,
    coordinate: C,
    log: &mut Vec<Message>,
)
    ensures
        airport_reconciled(
            old(airports)@,
            old(log)@,
            opt_text(*icao),
            coordinate,
            final(airports)@,
            final(log)@,
        ),
{
    match icao {
        None => {},
        Some(d) => {
            let mut i: usize = 0;
            while i < airports.len()
                invariant
                    i <= airports@.len(),
                    airports@ == old(airports)@,
                    log@ == old(log)@,
                    opt_text(*icao) == Some(d@),
                    forall|j: int| 0 <= j < i ==> (#[trigger] airports@[j]).designator@ != d@,
                decreases airports@.len() - i,
            {
                if airports[i].designator == *d {
                    let ghost before = airports@;
                    airports[i].coordinate = coordinate;
                    assert(first_airport(before, d@, i as int));
                    assert(before[i as int].designator@ == d@);
                    assert(airports@ =~= before.update(
                        i as int,
                        LocalAirport { coordinate, ..before[i as int] },
                    ));
                    return;
                }
                i = i + 1;
            }
            let mut text = String::from_str("Adding new airport: ");
            text.append(d.as_str());
            log.push(Message::debug(text));
            airports.push(
                LocalAirport {
                    designator: d.clone(),
                    coordinate,
                    ctr_airspace: String::from_str(NEW_AIRPORT_AIRSPACE),
                },
            );
            assert(airports@.drop_last() =~= old(airports)@);
            assert(log@.drop_last() =~= old(log)@);
        },
    }
}

/// Reconciles one VOR or NDB record with its list; `kind` names the kind in
/// the log.
pub fn update_navaid<C: Copy>(
    navaids: &mut Vec<LocalNavaid<C>>,
    kind: &str,
    designator: &String,
    coordinate: C,
    frequency: u64,
    log: &mut Vec<Message>,
)
    ensures
        navaid_reconciled(
            old(navaids)@,
            old(log)@,
            kind@,
            designator@,
            coordinate,
            frequency,
            final(navaids)@,
            final(log)@,
        ),
{
    let text = format_frequency(frequency);
    let mut i: usize = 0;
    while i < navaids.len()
        invariant
            i <= navaids@.len(),
            navaids@ == old(navaids)@,
            log@ == old(log)@,
            text@ == freq_text(frequency as nat),
            forall|j: int|
                0 <= j < i ==> !((#[trigger] navaids@[j]).designator@ == designator@
                    && navaids@[j].frequency@ == text@),
        decreases navaids@.len() - i,
    {
        if navaids[i].designator == *designator && navaids[i].frequency == text {
            let ghost before = navaids@;
            navaids[i].coordinate = coordinate;
            assert(first_navaid(before, designator@, text@, i as int));
            assert(navaids@ =~= before.update(
                i as int,
                LocalNavaid { coordinate, ..before[i as int] },
            ));
            return;
        }
        i = i + 1;
    }
    let mut line = String::from_str("Adding new ");
    line.append(kind);
    line.append(": ");
    line.append(designator.as_str());
    line.append(" ");
    line.append(text.as_str());
    log.push(Message::debug(line));
    navaids.push(LocalNavaid { designator: designator.clone(), coordinate, frequency: text });
    assert(navaids@.drop_last() =~= old(navaids)@);
    assert(log@.drop_last() =~= old(log)@);
}

/// Whether `d` may be inserted as a new fix.
pub fn named_fix(d: &String) -> (r: bool)
    ensures
        r == is_named_fix(d@),
{
    if d.as_str().unicode_len() != 5 {
        return false;
    }
    let first = d.as_str().get_char(0);
    !('0' <= first && first <= '9')
}

/// Reconciles one waypoint record with a list of fixes.
pub fn update_fixes<C: Copy, F: Fn(C, C) -> u64>(
    fixes: &mut Vec<LocalFix<C>>,
    designator: &String,
    coordinate: C,
    distance_m: &F,
    log: &mut Vec<Message>,
)
    requires
        forall|a: C, b: C| call_requires(*distance_m, (a, b)),
    ensures
        fixes_reconciled(
            old(fixes)@,
            old(log)@,
            designator@,
            coordinate,
            *distance_m,
            final(fixes)@,
            final(log)@,
        ),
{
    let mut i: usize = 0;
    while i < fixes.len()
        invariant
            i <= fixes@.len(),
            fixes@ == old(fixes)@,
            log@ == old(log)@,
            forall|a: C, b: C| call_requires(*distance_m, (a, b)),
            no_fix_within(fixes@.take(i as int), designator@, coordinate, *distance_m),
        decreases fixes@.len() - i,
    {
        let ghost before = fixes@;
        if fixes[i].designator == *designator {
            let m = distance_m(coordinate, fixes[i].coordinate);
            if m < FIX_MATCH_RADIUS_M {
                fixes[i].coordinate = coordinate;
                assert(first_fix_within(before, designator@, coordinate, *distance_m, i as int));
                assert(fixes@ =~= before.update(
                    i as int,
                    LocalFix { coordinate, ..before[i as int] },
                ));
                return;
            }
            assert(beyond_radius(*distance_m, coordinate, before[i as int].coordinate));
        }
        assert forall|j: int|
            0 <= j < i + 1 && (#[trigger] before.take(i + 1)[j]).designator@
                == designator@ implies beyond_radius(
            *distance_m,
            coordinate,
            before.take(i + 1)[j].coordinate,
        ) by {
            if j < i {
                assert(before.take(i + 1)[j] == before.take(i as int)[j]);
            }
        }
        i = i + 1;
    }
    assert(fixes@.take(i as int) =~= fixes@);
    if named_fix(designator) {
        let mut line = String::from_str("Adding new Fix: ");
        line.append(designator.as_str());
        log.push(Message::debug(line));
        fixes.push(LocalFix { designator: designator.clone(), coordinate });
        assert(fixes@.drop_last() =~= old(fixes)@);
        assert(log@.drop_last() =~= old(log)@);
    }
}

/// What reconciling one record does to a sector file's lists and the log.
pub open spec fn sector_step<C, F: Fn(C, C) -> u64>(
    old: SectorData<C>,
    old_log: Seq<Message>,
    rec: FacilityRecord<C>,
    f: F,
    new: SectorData<C>,
    new_log: Seq<Message>,
) -> bool {
    match rec {
        FacilityRecord::Airport { icao, coordinate, .. } => {
            &&& new.vors@ == old.vors@ && new.ndbs@ == old.ndbs@ && new.fixes@ == old.fixes@
            &&& airport_reconciled(
                old.airports@,
                old_log,
                opt_text(icao),
                coordinate,
                new.airports@,
                new_log,
            )
        },
        FacilityRecord::Vor { designator, coordinate, frequency } => {
            &&& new.airports@ == old.airports@ && new.ndbs@ == old.ndbs@ && new.fixes@
                == old.fixes@
            &&& navaid_reconciled(
                old.vors@,
                old_log,
                "VOR"@,
                designator@,
                coordinate,
                frequency,
                new.vors@,
                new_log,
            )
        },
        FacilityRecord::Ndb { designator, coordinate, frequency } => {
            &&& new.airports@ == old.airports@ && new.vors@ == old.vors@ && new.fixes@
                == old.fixes@
            &&& navaid_reconciled(
                old.ndbs@,
                old_log,
                "NDB"@,
                designator@,
                coordinate,
                frequency,
                new.ndbs@,
                new_log,
            )
        },
        FacilityRecord::Waypoint { designator, coordinate } => {
            &&& new.airports@ == old.airports@ && new.vors@ == old.vors@ && new.ndbs@
                == old.ndbs@
            &&& fixes_reconciled(
                old.fixes@,
                old_log,
                designator@,
                coordinate,
                f,
                new.fixes@,
                new_log,
            )
        },
        FacilityRecord::Other => {
            &&& new.airports@ == old.airports@ && new.vors@ == old.vors@
            &&& new.ndbs@ == old.ndbs@ && new.fixes@ == old.fixes@
            &&& new_log == old_log
        },
    }
}

/// `states` and `logs` are the successive sector lists and logs of a fold
/// over `records`, one step per record, in order.
pub open spec fn sector_trace<C, F: Fn(C, C) -> u64>(
    records: Seq<FacilityRecord<C>>,
    f: F,
    states: Seq<SectorData<C>>,
    logs: Seq<Seq<Message>>,
) -> bool {
    &&& states.len() == records.len() + 1
    &&& logs.len() == records.len() + 1
    &&& forall|k: int|
        0 <= k < records.len() ==> sector_step(
            states[k],
            logs[k],
            #[trigger] records[k],
            f,
            states[k + 1],
            logs[k + 1],
        )
}

/// `new` and `new_log` are what folding `records` into `old` and `old_log`
/// gives.
pub open spec fn sector_folded<C, F: Fn(C, C) -> u64>(
    old: SectorData<C>,
    old_log: Seq<Message>,
    records: Seq<FacilityRecord<C>>,
    f: F,
    new: SectorData<C>,
    new_log: Seq<Message>,
) -> bool {
    exists|states: Seq<SectorData<C>>, logs: Seq<Seq<Message>>|
        sector_trace(records, f, states, logs) && states[0] == old && logs[0] == old_log
            && states.last() == new && logs.last() == new_log
}

/// Local data that facility records can be folded into.
pub trait AixmUpdateExt<C, F: Fn(C, C) -> u64>: Sized {
    /// The data is well formed.
    spec fn ready(&self) -> bool;

    /// `new` and `new_log` are what folding `records` into `old` and
    /// `old_log` gives, record by record in order.
    spec fn folded(
        old: Self,
        old_log: Seq<Message>,
        records: Seq<FacilityRecord<C>>,
        f: F,
        new: Self,
        new_log: Seq<Message>,
    ) -> bool;

    /// Folds the records into the data; messages about added entities go to
    /// `log`.
    fn update_from_aixm(
        self,
        records: &Vec<FacilityRecord<C>>,
        distance_m: &F,
        log: &mut Vec<Message>,
    ) -> (r: Self)
        requires
            self.ready(),
            forall|a: C, b: C| call_requires(*distance_m, (a, b)),
        ensures
            r.ready(),
            Self::folded(self, old(log)@, records@, *distance_m, r, final(log)@),
    ;
}

impl<C: Copy, F: Fn(C, C) -> u64> AixmUpdateExt<C, F> for SectorData<C> {
    open spec fn ready(&self) -> bool {
        true
    }

    open spec fn folded(
        old: Self,
        old_log: Seq<Message>,
        records: Seq<FacilityRecord<C>>,
        f: F,
        new: Self,
        new_log: Seq<Message>,
    ) -> bool {
        sector_folded(old, old_log, records, f, new, new_log)
    }

    fn update_from_aixm(
        self,
        records: &Vec<FacilityRecord<C>>,
        distance_m: &F,
        log: &mut Vec<Message>,
    ) -> (r: SectorData<C>)
    {
        let mut data = self;
        let ghost start = data;
        let ghost states = seq![data];
        let ghost logs = seq![log@];
        let mut i: usize = 0;
        while i < records.len()
            invariant
                i <= records@.len(),
                forall|a: C, b: C| call_requires(*distance_m, (a, b)),
                states.len() == i + 1,
                logs.len() == i + 1,
                states[0] == start,
                logs[0] == old(log)@,
                forall|k: int|
                    0 <= k < i ==> sector_step(
                        states[k],
                        logs[k],
                        #[trigger] records@[k],
                        *distance_m,
                        states[k + 1],
                        logs[k + 1],
                    ),
                states.last() == data,
                logs.last() == log@,
            decreases records@.len() - i,
        {
            match &records[i] {
                FacilityRecord::Airport { icao, coordinate, .. } => {
                    update_airport(&mut data.airports, icao, *coordinate, log);
                },
                FacilityRecord::Vor { designator, coordinate, frequency } => {
                    update_navaid(&mut data.vors, "VOR", designator, *coordinate, *frequency, log);
                },
                FacilityRecord::Ndb { designator, coordinate, frequency } => {
                    update_navaid(&mut data.ndbs, "NDB", designator, *coordinate, *frequency, log);
                },
                FacilityRecord::Waypoint { designator, coordinate } => {
                    update_fixes(&mut data.fixes, designator, *coordinate, distance_m, log);
                },
                FacilityRecord::Other => {},
            }
            proof {
                states = states.push(data);
                logs = logs.push(log@);
            }
            i = i + 1;
        }
        assert(sector_trace(records@, *distance_m, states, logs));
        data
    }
}

/// What reconciling a waypoint record does to an intersection map and the
/// log: the fixes filed under its designator are reconciled as a list; no
/// other designator changes, and the designator is added only with a fix.
pub open spec fn isec_reconciled<C, F: Fn(C, C) -> u64>(
    old: Map<Seq<char>, Seq<LocalFix<C>>>,
    old_log: Seq<Message>,
    d: Seq<char>,
    c: C,
    f: F,
    new: Map<Seq<char>, Seq<LocalFix<C>>>,
    new_log: Seq<Message>,
) -> bool {
    &&& fixes_reconciled(filed_under(old, d), old_log, d, c, f, filed_under(new, d), new_log)
    &&& new.remove(d) == old.remove(d)
    &&& new.contains_key(d) == (old.contains_key(d) || filed_under(new, d).len() > 0)
}

/// What reconciling one record does to an intersection map: waypoints are
/// reconciled, every other kind is left alone.
pub open spec fn isec_step<C, F: Fn(C, C) -> u64>(
    old: Map<Seq<char>, Seq<LocalFix<C>>>,
    old_log: Seq<Message>,
    rec: FacilityRecord<C>,
    f: F,
    new: Map<Seq<char>, Seq<LocalFix<C>>>,
    new_log: Seq<Message>,
) -> bool {
    match rec {
        FacilityRecord::Waypoint { designator, coordinate } => isec_reconciled(
            old,
            old_log,
            designator@,
            coordinate,
            f,
            new,
            new_log,
        ),
        _ => new == old && new_log == old_log,
    }
}

/// `maps` and `logs` are the successive maps and logs of a fold over
/// `records`, one step per record, in order.
pub open spec fn isec_trace<C, F: Fn(C, C) -> u64>(
    records: Seq<FacilityRecord<C>>,
    f: F,
    maps: Seq<Map<Seq<char>, Seq<LocalFix<C>>>>,
    logs: Seq<Seq<Message>>,
) -> bool {
    &&& maps.len() == records.len() + 1
    &&& logs.len() == records.len() + 1
    &&& forall|k: int|
        0 <= k < records.len() ==> isec_step(
            maps[k],
            logs[k],
            #[trigger] records[k],
            f,
            maps[k + 1],
            logs[k + 1],
        )
}

/// `new` and `new_log` are what folding `records` into `old` and `old_log`
/// gives.
pub open spec fn isec_folded<C, F: Fn(C, C) -> u64>(
    old: Map<Seq<char>, Seq<LocalFix<C>>>,
    old_log: Seq<Message>,
    records: Seq<FacilityRecord<C>>,
    f: F,
    new: Map<Seq<char>, Seq<LocalFix<C>>>,
    new_log: Seq<Message>,
) -> bool {
    exists|maps: Seq<Map<Seq<char>, Seq<LocalFix<C>>>>, logs: Seq<Seq<Message>>|
        isec_trace(records, f, maps, logs) && maps[0] == old && logs[0] == old_log && maps.last()
            == new && logs.last() == new_log
}

impl<C: Copy, F: Fn(C, C) -> u64> AixmUpdateExt<C, F> for IntersectionMap<C> {
    open spec fn ready(&self) -> bool {
        self.wf()
    }

    open spec fn folded(
        old: Self,
        old_log: Seq<Message>,
        records: Seq<FacilityRecord<C>>,
        f: F,
        new: Self,
        new_log: Seq<Message>,
    ) -> bool {
        isec_folded(old@, old_log, records, f, new@, new_log)
    }

    /// Only waypoint records change the map.
    fn update_from_aixm(
        self,
        records: &Vec<FacilityRecord<C>>,
        distance_m: &F,
        log: &mut Vec<Message>,
    ) -> (r: IntersectionMap<C>)
    {
        let mut map = self;
        let ghost start = map@;
        let ghost maps = seq![map@];
        let ghost logs = seq![log@];
        let mut i: usize = 0;
        while i < records.len()
            invariant
                i <= records@.len(),
                map.wf(),
                forall|a: C, b: C| call_requires(*distance_m, (a, b)),
                maps.len() == i + 1,
                logs.len() == i + 1,
                maps[0] == start,
                logs[0] == old(log)@,
                forall|k: int|
                    0 <= k < i ==> isec_step(
                        maps[k],
                        logs[k],
                        #[trigger] records@[k],
                        *distance_m,
                        maps[k + 1],
                        logs[k + 1],
                    ),
                maps.last() == map@,
                logs.last() == log@,
            decreases records@.len() - i,
        {
            if let FacilityRecord::Waypoint { designator, coordinate } = &records[i] {
                map.update_fix(designator, *coordinate, distance_m, log);
            }
            proof {
                maps = maps.push(map@);
                logs = logs.push(log@);
            }
            i = i + 1;
        }
        assert(isec_trace(records@, *distance_m, maps, logs));
        map
    }
}

/// An airport matched by its ICAO indicator takes the record's coordinate and
/// keeps its designator and airspace class exactly; no other airport changes
/// and nothing is logged.
pub proof fn lemma_matched_airport_keeps_other_fields<C>(
    old: Seq<LocalAirport<C>>,
    old_log: Seq<Message>,
    icao: Seq<char>,
    c: C,
    new: Seq<LocalAirport<C>>,
    new_log: Seq<Message>,
    i: int,
)
    requires
        airport_reconciled(old, old_log, Some(icao), c, new, new_log),
        first_airport(old, icao, i),
    ensures
        new.len() == old.len(),
        new[i].coordinate == c,
        new[i].designator == old[i].designator,
        new[i].ctr_airspace == old[i].ctr_airspace,
        forall|j: int| 0 <= j < old.len() && j != i ==> new[j] == old[j],
        new_log == old_log,
{
    assert(old[i].designator@ == icao);
    let k = choose|k: int|
        first_airport(old, icao, k) && new == old.update(k, LocalAirport { coordinate: c, ..old[k] })
            && new_log == old_log;
    if k < i {
        assert(old[k].designator@ != icao);
    }
    if i < k {
        assert(old[i].designator@ != icao);
    }
}

/// A VOR or NDB matched by designator and frequency text takes the record's
/// coordinate and keeps its designator and frequency text exactly; no other
/// entry changes and nothing is logged.
pub proof fn lemma_matched_navaid_keeps_other_fields<C>(
    old: Seq<LocalNavaid<C>>,
    old_log: Seq<Message>,
    kind: Seq<char>,
    d: Seq<char>,
    c: C,
    frequency: u64,
    new: Seq<LocalNavaid<C>>,
    new_log: Seq<Message>,
    i: int,
)
    requires
        navaid_reconciled(old, old_log, kind, d, c, frequency, new, new_log),
        first_navaid(old, d, freq_text(frequency as nat), i),
    ensures
        new.len() == old.len(),
        new[i].coordinate == c,
        new[i].designator == old[i].designator,
        new[i].frequency == old[i].frequency,
        forall|j: int| 0 <= j < old.len() && j != i ==> new[j] == old[j],
        new_log == old_log,
{
    let text = freq_text(frequency as nat);
    assert(old[i].designator@ == d && old[i].frequency@ == text);
    let k = choose|k: int|
        first_navaid(old, d, text, k) && new == old.update(k, LocalNavaid { coordinate: c, ..old[k] })
            && new_log == old_log;
    if k < i {
        assert(!(old[k].designator@ == d && old[k].frequency@ == text));
    }
    if i < k {
        assert(!(old[i].designator@ == d && old[i].frequency@ == text));
    }
}

/// A waypoint whose designator is not five characters long, or starts with a
/// decimal digit, never adds a fix and never logs, wherever it lies.
pub proof fn lemma_unnamed_waypoint_never_inserted<C, F: Fn(C, C) -> u64>(
    old: Seq<LocalFix<C>>,
    old_log: Seq<Message>,
    d: Seq<char>,
    c: C,
    f: F,
    new: Seq<LocalFix<C>>,
    new_log: Seq<Message>,
)
    requires
        fixes_reconciled(old, old_log, d, c, f, new, new_log),
        d.len() != 5 || is_digit(d[0]),
    ensures
        new.len() == old.len(),
        new_log == old_log,
{
}

/// A five-character designator that does not start with a digit, whose record
/// lies beyond the match radius of every fix of that designator, is added
/// exactly once, after all existing fixes, which stay as they were.
pub proof fn lemma_named_waypoint_far_away_inserted_once<C, F: Fn(C, C) -> u64>(
    old: Seq<LocalFix<C>>,
    old_log: Seq<Message>,
    d: Seq<char>,
    c: C,
    f: F,
    new: Seq<LocalFix<C>>,
    new_log: Seq<Message>,
)
    requires
        fixes_reconciled(old, old_log, d, c, f, new, new_log),
        d.len() == 5,
        !is_digit(d[0]),
        forall|j: int|
            0 <= j < old.len() && (#[trigger] old[j]).designator@ == d ==> !within_radius(
                f,
                c,
                old[j].coordinate,
            ),
    ensures
        new.len() == old.len() + 1,
        new.drop_last() == old,
        new.last().designator@ == d,
        new.last().coordinate == c,
        logged(old_log, new_log, "Adding new Fix: "@ + d),
{
}

/// The same two rules for the intersection map: an unnamed designator never
/// gains a fix or a key, and a named one far from every fix filed under it
/// gains exactly one fix, appended to that designator's list, with every
/// other designator untouched.
pub proof fn lemma_intersection_insert_rules<C, F: Fn(C, C) -> u64>(
    old: Map<Seq<char>, Seq<LocalFix<C>>>,
    old_log: Seq<Message>,
    d: Seq<char>,
    c: C,
    f: F,
    new: Map<Seq<char>, Seq<LocalFix<C>>>,
    new_log: Seq<Message>,
)
    requires
        isec_reconciled(old, old_log, d, c, f, new, new_log),
    ensures
        (d.len() != 5 || is_digit(d[0])) ==> new.dom() == old.dom() && filed_under(new, d).len()
            == filed_under(old, d).len() && new_log == old_log,
        (d.len() == 5 && !is_digit(d[0]) && forall|j: int|
            0 <= j < filed_under(old, d).len() && (#[trigger] filed_under(old, d)[j]).designator@
                == d ==> !within_radius(f, c, filed_under(old, d)[j].coordinate)) ==> {
            &&& new.contains_key(d)
            &&& new[d].drop_last() == filed_under(old, d)
            &&& new[d].last().designator@ == d
            &&& new[d].last().coordinate == c
            &&& new.remove(d) == old.remove(d)
            &&& logged(old_log, new_log, "Adding new Fix: "@ + d)
        },
{
    if d.len() != 5 || is_digit(d[0]) {
        lemma_unnamed_waypoint_never_inserted(
            filed_under(old, d),
            old_log,
            d,
            c,
            f,
            filed_under(new, d),
            new_log,
        );
        assert forall|k: Seq<char>| new.dom().contains(k) == old.dom().contains(k) by {
            if k != d {
                assert(new.remove(d).contains_key(k) == new.contains_key(k));
                assert(old.remove(d).contains_key(k) == old.contains_key(k));
            }
        }
        assert(new.dom() =~= old.dom());
    }
}

} // verus!
