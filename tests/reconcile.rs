use airac_updater::facility::FacilityRecord;
use airac_updater::local::{IntersectionMap, LocalAirport, LocalFix, LocalNavaid, SectorData};
use airac_updater::message::{Level, Message};
use airac_updater::reconcile::{
    named_fix, update_airport, update_fixes, update_navaid, AixmUpdateExt, FIX_MATCH_RADIUS_M,
};
use geo::{Distance, Geodesic, Point};

fn metres(a: Point<f64>, b: Point<f64>) -> u64 {
    Geodesic.distance(a, b).floor() as u64
}

fn pt(lat: f64, lng: f64) -> Point<f64> {
    Point::new(lng, lat)
}

fn fix(designator: &str, at: Point<f64>) -> LocalFix<Point<f64>> {
    LocalFix { designator: designator.to_string(), coordinate: at }
}

fn empty_sector() -> SectorData<Point<f64>> {
    SectorData { airports: vec![], vors: vec![], ndbs: vec![], fixes: vec![] }
}

#[test]
fn matched_airport_changes_only_its_coordinate() {
    let mut airports = vec![
        LocalAirport { designator: "EDDM".to_string(), coordinate: pt(48.0, 11.0), ctr_airspace: "C".to_string() },
        LocalAirport { designator: "EDDF".to_string(), coordinate: pt(50.0, 8.0), ctr_airspace: "X".to_string() },
    ];
    let mut log: Vec<Message> = vec![];
    update_airport(&mut airports, &Some("EDDF".to_string()), pt(50.03, 8.57), &mut log);
    assert_eq!(airports.len(), 2);
    assert_eq!(airports[1].designator, "EDDF");
    assert_eq!(airports[1].ctr_airspace, "X");
    assert_eq!(airports[1].coordinate, pt(50.03, 8.57));
    assert_eq!(airports[0].coordinate, pt(48.0, 11.0));
    assert!(log.is_empty());
}

#[test]
fn unknown_airport_is_added_with_default_airspace() {
    let mut airports: Vec<LocalAirport<Point<f64>>> = vec![];
    let mut log: Vec<Message> = vec![];
    update_airport(&mut airports, &Some("EDDS".to_string()), pt(48.69, 9.22), &mut log);
    assert_eq!(airports.len(), 1);
    assert_eq!(airports[0].designator, "EDDS");
    assert_eq!(airports[0].ctr_airspace, "D");
    assert_eq!(airports[0].coordinate, pt(48.69, 9.22));
    assert_eq!(log.len(), 1);
    assert_eq!(log[0].content, "Adding new airport: EDDS");
    assert_eq!(log[0].level, Level::Debug);
}

#[test]
fn airport_without_indicator_is_ignored() {
    let mut airports = vec![LocalAirport {
        designator: "EDDM".to_string(),
        coordinate: pt(48.0, 11.0),
        ctr_airspace: "C".to_string(),
    }];
    let mut log: Vec<Message> = vec![];
    update_airport(&mut airports, &None, pt(1.0, 1.0), &mut log);
    assert_eq!(airports.len(), 1);
    assert_eq!(airports[0].coordinate, pt(48.0, 11.0));
    assert!(log.is_empty());
}

#[test]
fn vor_matches_by_designator_and_frequency_text() {
    let mut vors = vec![
        LocalNavaid { designator: "FFM".to_string(), coordinate: pt(50.0, 8.6), frequency: "114.200".to_string() },
        LocalNavaid { designator: "FFM".to_string(), coordinate: pt(50.1, 8.7), frequency: "112.500".to_string() },
    ];
    let mut log: Vec<Message> = vec![];
    update_navaid(&mut vors, "VOR", &"FFM".to_string(), pt(50.2, 8.8), 112500, &mut log);
    assert_eq!(vors.len(), 2);
    assert_eq!(vors[0].coordinate, pt(50.0, 8.6));
    assert_eq!(vors[1].coordinate, pt(50.2, 8.8));
    assert_eq!(vors[1].frequency, "112.500");
    assert!(log.is_empty());
}

#[test]
fn vor_with_other_frequency_is_added() {
    let mut vors = vec![LocalNavaid {
        designator: "FFM".to_string(),
        coordinate: pt(50.0, 8.6),
        frequency: "114.200".to_string(),
    }];
    let mut log: Vec<Message> = vec![];
    update_navaid(&mut vors, "VOR", &"FFM".to_string(), pt(50.2, 8.8), 112500, &mut log);
    assert_eq!(vors.len(), 2);
    assert_eq!(vors[1].designator, "FFM");
    assert_eq!(vors[1].frequency, "112.500");
    assert_eq!(log[0].content, "Adding new VOR: FFM 112.500");
    assert_eq!(log[0].level, Level::Debug);
}

#[test]
fn nearby_fix_with_same_name_is_moved() {
    let mut fixes = vec![fix("DITIB", pt(50.0, 8.0)), fix("OTHER", pt(50.0, 8.001))];
    let mut log: Vec<Message> = vec![];
    update_fixes(&mut fixes, &"DITIB".to_string(), pt(50.0, 8.005), &metres, &mut log);
    assert_eq!(fixes.len(), 2);
    assert_eq!(fixes[0].coordinate, pt(50.0, 8.005));
    assert_eq!(fixes[1].coordinate, pt(50.0, 8.001));
    assert!(log.is_empty());
}

#[test]
fn distant_named_fix_is_inserted_once() {
    let mut fixes = vec![fix("DITIB", pt(50.0, 8.0))];
    let mut log: Vec<Message> = vec![];
    let far = pt(50.0, 8.02);
    assert!(metres(far, pt(50.0, 8.0)) > FIX_MATCH_RADIUS_M);
    update_fixes(&mut fixes, &"DITIB".to_string(), far, &metres, &mut log);
    assert_eq!(fixes.len(), 2);
    assert_eq!(fixes[0].coordinate, pt(50.0, 8.0));
    assert_eq!(fixes[1].designator, "DITIB");
    assert_eq!(fixes[1].coordinate, far);
    assert_eq!(log.len(), 1);
    assert_eq!(log[0].content, "Adding new Fix: DITIB");
    update_fixes(&mut fixes, &"DITIB".to_string(), far, &metres, &mut log);
    assert_eq!(fixes.len(), 2);
}

#[test]
fn fix_exactly_at_radius_is_not_matched() {
    let mut fixes = vec![fix("ABCDE", pt(0.0, 0.0))];
    let mut log: Vec<Message> = vec![];
    let at_radius = |_a: Point<f64>, _b: Point<f64>| FIX_MATCH_RADIUS_M;
    update_fixes(&mut fixes, &"ABCDE".to_string(), pt(1.0, 1.0), &at_radius, &mut log);
    assert_eq!(fixes.len(), 2);
}

#[test]
fn unnamed_designators_are_never_inserted() {
    for name in ["ABCD", "ABCDEF", "1ABCD", "52N08", "DF123"] {
        let mut fixes: Vec<LocalFix<Point<f64>>> = vec![];
        let mut log: Vec<Message> = vec![];
        update_fixes(&mut fixes, &name.to_string(), pt(50.0, 8.0), &metres, &mut log);
        let expected = if name == "DF123" { 1 } else { 0 };
        assert_eq!(fixes.len(), expected, "{}", name);
        assert_eq!(log.len(), expected);
    }
    assert!(!named_fix(&"ABCD".to_string()));
    assert!(!named_fix(&"1ABCD".to_string()));
    assert!(named_fix(&"ABCDE".to_string()));
}

#[test]
fn sector_fold_applies_each_record_in_order() {
    let mut sector = empty_sector();
    sector.ndbs.push(LocalNavaid {
        designator: "MNW".to_string(),
        coordinate: pt(48.0, 11.0),
        frequency: "375.000".to_string(),
    });
    let records = vec![
        FacilityRecord::Airport { designator: "X".to_string(), icao: Some("EDDF".to_string()), coordinate: pt(50.0, 8.5) },
        FacilityRecord::Ndb { designator: "MNW".to_string(), coordinate: pt(48.1, 11.1), frequency: 375000 },
        FacilityRecord::Vor { designator: "FFM".to_string(), coordinate: pt(50.0, 8.6), frequency: 114200 },
        FacilityRecord::Waypoint { designator: "DITIB".to_string(), coordinate: pt(50.0, 8.0) },
        FacilityRecord::Waypoint { designator: "DITIB".to_string(), coordinate: pt(50.0, 8.004) },
        FacilityRecord::Other,
    ];
    let mut log: Vec<Message> = vec![];
    let sector = sector.update_from_aixm(&records, &metres, &mut log);
    assert_eq!(sector.airports.len(), 1);
    assert_eq!(sector.ndbs.len(), 1);
    assert_eq!(sector.ndbs[0].coordinate, pt(48.1, 11.1));
    assert_eq!(sector.vors.len(), 1);
    assert_eq!(sector.fixes.len(), 1);
    assert_eq!(sector.fixes[0].coordinate, pt(50.0, 8.004));
    let texts: Vec<&str> = log.iter().map(|m| m.content.as_str()).collect();
    assert_eq!(texts, vec!["Adding new airport: EDDF", "Adding new VOR: FFM 114.200", "Adding new Fix: DITIB"]);
}

#[test]
fn intersection_fold_matches_within_bucket() {
    let mut map: IntersectionMap<Point<f64>> = IntersectionMap::new();
    map.insert("DITIB".to_string(), fix("DITIB", pt(50.0, 8.0)));
    map.insert("DITIB".to_string(), fix("DITIB", pt(52.0, 10.0)));
    let records = vec![
        FacilityRecord::Waypoint { designator: "DITIB".to_string(), coordinate: pt(52.0, 10.003) },
        FacilityRecord::Waypoint { designator: "DITIB".to_string(), coordinate: pt(54.0, 12.0) },
        FacilityRecord::Waypoint { designator: "KOVAN".to_string(), coordinate: pt(49.0, 9.0) },
        FacilityRecord::Waypoint { designator: "12345".to_string(), coordinate: pt(49.0, 9.0) },
        FacilityRecord::Vor { designator: "FFM".to_string(), coordinate: pt(50.0, 8.6), frequency: 114200 },
    ];
    let mut log: Vec<Message> = vec![];
    let map = map.update_from_aixm(&records, &metres, &mut log);
    let ditib = map.get(&"DITIB".to_string()).unwrap();
    assert_eq!(ditib.len(), 3);
    assert_eq!(ditib[0].coordinate, pt(50.0, 8.0));
    assert_eq!(ditib[1].coordinate, pt(52.0, 10.003));
    assert_eq!(ditib[2].coordinate, pt(54.0, 12.0));
    assert_eq!(map.get(&"KOVAN".to_string()).unwrap().len(), 1);
    assert!(map.get(&"12345".to_string()).is_none());
    assert_eq!(log.len(), 2);
    assert_eq!(log[1].content, "Adding new Fix: KOVAN");
}
