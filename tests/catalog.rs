use airac_updater::catalog::{
    get_dataset_url, resolve_all, standard_datasets, Amendment, Catalog, CatalogError,
    DatasetNode, Release, AIXM_RELEASE, CATALOG_URL, CURRENT_AMENDMENT,
};

fn release(release_type: &str, filename: &str) -> Release {
    Release { release_type: release_type.to_string(), filename: filename.to_string() }
}

fn leaf(name: &str, releases: Vec<Release>) -> DatasetNode {
    DatasetNode::Leaf { name: name.to_string(), releases }
}

fn group(name: &str, items: Vec<DatasetNode>) -> DatasetNode {
    DatasetNode::Group { name: name.to_string(), items }
}

fn single_leaf_catalog() -> Catalog {
    Catalog {
        amendments: vec![Amendment {
            amdt: 7,
            datasets: vec![group("Root", vec![leaf("D", vec![release("AIXM 5.1", "f.xml")])])],
        }],
    }
}

#[test]
fn resolves_leaf_release_to_url() {
    let catalog = single_leaf_catalog();
    assert_eq!(
        get_dataset_url(&catalog, 7, "D", "AIXM 5.1"),
        Some("https://aip.dfs.de/datasets/rest/7/f.xml".to_string())
    );
    assert_eq!(CATALOG_URL, "https://aip.dfs.de/datasets/rest/");
}

#[test]
fn absent_release_type_resolves_to_nothing() {
    let catalog = single_leaf_catalog();
    assert_eq!(get_dataset_url(&catalog, 7, "D", "AIXM 4.5"), None);
}

#[test]
fn unknown_dataset_resolves_to_nothing() {
    let catalog = single_leaf_catalog();
    assert_eq!(get_dataset_url(&catalog, 7, "E", "AIXM 5.1"), None);
}

#[test]
fn other_amendment_resolves_to_nothing() {
    let catalog = single_leaf_catalog();
    assert_eq!(get_dataset_url(&catalog, 8, "D", "AIXM 5.1"), None);
}

#[test]
fn first_leaf_in_depth_first_order_wins() {
    let catalog = Catalog {
        amendments: vec![Amendment {
            amdt: 0,
            datasets: vec![group(
                "A",
                vec![
                    group("B", vec![leaf("X", vec![release("AIXM 5.1", "deep.xml")])]),
                    leaf("X", vec![release("AIXM 5.1", "shallow.xml")]),
                ],
            )],
        }],
    };
    assert_eq!(
        get_dataset_url(&catalog, 0, "X", "AIXM 5.1"),
        Some("https://aip.dfs.de/datasets/rest/0/deep.xml".to_string())
    );
    match catalog.amendments[0].datasets[0].find("X") {
        Some(DatasetNode::Leaf { releases, .. }) => assert_eq!(releases[0].filename, "deep.xml"),
        _ => panic!("leaf X not found"),
    }
    assert!(catalog.amendments[0].datasets[0].find("B").is_none());
}

#[test]
fn first_matching_release_of_leaf_is_used() {
    let catalog = Catalog {
        amendments: vec![Amendment {
            amdt: 12,
            datasets: vec![leaf(
                "D",
                vec![
                    release("PDF", "d.pdf"),
                    release("AIXM 5.1", "one.xml"),
                    release("AIXM 5.1", "two.xml"),
                ],
            )],
        }],
    };
    assert_eq!(
        get_dataset_url(&catalog, 12, "D", "AIXM 5.1"),
        Some("https://aip.dfs.de/datasets/rest/12/one.xml".to_string())
    );
}

#[test]
fn search_goes_on_with_next_root_when_leaf_lacks_release() {
    let catalog = Catalog {
        amendments: vec![Amendment {
            amdt: 3,
            datasets: vec![
                leaf("D", vec![release("PDF", "d.pdf")]),
                leaf("D", vec![release("AIXM 5.1", "later.xml")]),
            ],
        }],
    };
    assert_eq!(
        get_dataset_url(&catalog, 3, "D", "AIXM 5.1"),
        Some("https://aip.dfs.de/datasets/rest/3/later.xml".to_string())
    );
}

#[test]
fn resolve_all_gives_urls_in_order() {
    let catalog = Catalog {
        amendments: vec![Amendment {
            amdt: CURRENT_AMENDMENT,
            datasets: vec![
                leaf("ED Navaids", vec![release(AIXM_RELEASE, "nav.xml")]),
                leaf("ED Waypoints", vec![release(AIXM_RELEASE, "wpt.xml")]),
            ],
        }],
    };
    let names = vec!["ED Waypoints".to_string(), "ED Navaids".to_string()];
    match resolve_all(&catalog, CURRENT_AMENDMENT, &names, AIXM_RELEASE) {
        Ok(urls) => assert_eq!(
            urls,
            vec![
                "https://aip.dfs.de/datasets/rest/0/wpt.xml".to_string(),
                "https://aip.dfs.de/datasets/rest/0/nav.xml".to_string(),
            ]
        ),
        Err(e) => panic!("unexpected error {:?}", e),
    }
}

#[test]
fn resolve_all_reports_first_missing_dataset() {
    let catalog = single_leaf_catalog();
    let names = vec!["D".to_string(), "ED Routes".to_string(), "ED Runway".to_string()];
    match resolve_all(&catalog, 7, &names, "AIXM 5.1") {
        Err(e) => {
            let CatalogError::DatasetNotFound { dataset } = &e;
            assert_eq!(dataset, "ED Routes");
            assert_eq!(e.message(), "Could not find AIXM dataset (ED Routes)");
        }
        Ok(urls) => panic!("unexpected urls {:?}", urls),
    }
}

#[test]
fn standard_datasets_are_the_five_facility_sets() {
    assert_eq!(
        standard_datasets(),
        vec!["ED AirportHeliport", "ED Navaids", "ED Routes", "ED Runway", "ED Waypoints"]
    );
    assert_eq!(AIXM_RELEASE, "AIXM 5.1");
    assert_eq!(CURRENT_AMENDMENT, 0);
}
