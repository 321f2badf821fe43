//! The published catalog of amendment cycles and their datasets, and the
//! resolution of a dataset name and release type to a download URL.
use vstd::prelude::*;

use crate::text::{decimal, push_decimal, same_text};

verus! {

/// Where the catalog is published; dataset files live below it.
pub const CATALOG_URL: &'static str = "https://aip.dfs.de/datasets/rest/";

/// The amendment cycle that the catalog lists as current.
pub const CURRENT_AMENDMENT: u32 = 0;

/// The release type that carries the facility data.
pub const AIXM_RELEASE: &'static str = "AIXM 5.1";

/// One downloadable encoding of a dataset.
#[derive(Debug)]
pub struct Release {
    pub release_type: String,
    pub filename: String,
}

/// A node of an amendment's dataset tree: a named group of nodes, or a named
/// dataset with its releases.
#[derive(Debug)]
pub enum DatasetNode {
    Group { name: String, items: Vec<DatasetNode> },
    Leaf { name: String, releases: Vec<Release> },
}

/// One amendment cycle and the roots of its dataset tree.
#[derive(Debug)]
pub struct Amendment {
    pub amdt: u32,
    pub datasets: Vec<DatasetNode>,
}

/// All amendment cycles that the catalog lists.
#[derive(Debug)]
pub struct Catalog {
    pub amendments: Vec<Amendment>,
}

/// The first leaf named `name` in depth-first order, the node itself first.
pub open spec fn find_leaf(node: DatasetNode, name: Seq<char>) -> Option<DatasetNode>
    decreases node,
{
    match node {
        DatasetNode::Leaf { name: n, .. } => if n@ == name {
            Some(node)
        } else {
            None
        },
        DatasetNode::Group { items, .. } => find_in(items@, name),
    }
}

/// The first leaf named `name` in depth-first order over a list of subtrees.
pub open spec fn find_in(items: Seq<DatasetNode>, name: Seq<char>) -> Option<DatasetNode>
    decreases items,
{
    if items.len() == 0 {
        None
    } else {
        match find_leaf(items[0], name) {
            Some(found) => Some(found),
            None => find_in(items.subrange(1, items.len() as int), name),
        }
    }
}

/// The file of the first release of type `release_type`.
pub open spec fn release_file(releases: Seq<Release>, release_type: Seq<char>) -> Option<Seq<char>>
    decreases releases.len(),
{
    if releases.len() == 0 {
        None
    } else if releases[0].release_type@ == release_type {
        Some(releases[0].filename@)
    } else {
        release_file(releases.drop_first(), release_type)
    }
}

/// The file of the first release of type `release_type` of the leaf found
/// under a root.
pub open spec fn leaf_file(found: Option<DatasetNode>, release_type: Seq<char>) -> Option<Seq<char>> {
    match found {
        Some(DatasetNode::Leaf { releases, .. }) => release_file(releases@, release_type),
        _ => None,
    }
}

/// Searches the roots in order; under each root only the first leaf named
/// `name` is considered.
pub open spec fn datasets_file(
    roots: Seq<DatasetNode>,
    name: Seq<char>,
    release_type: Seq<char>,
) -> Option<Seq<char>>
    decreases roots.len(),
{
    if roots.len() == 0 {
        None
    } else {
        match leaf_file(find_leaf(roots[0], name), release_type) {
            Some(f) => Some(f),
            None => datasets_file(roots.drop_first(), name, release_type),
        }
    }
}

/// Searches, in order, the amendments numbered `amdt_id`.
pub open spec fn amendments_file(
    amendments: Seq<Amendment>,
    amdt_id: u32,
    name: Seq<char>,
    release_type: Seq<char>,
) -> Option<Seq<char>>
    decreases amendments.len(),
{
    if amendments.len() == 0 {
        None
    } else {
        let here = if amendments[0].amdt == amdt_id {
            datasets_file(amendments[0].datasets@, name, release_type)
        } else {
            None
        };
        match here {
            Some(f) => Some(f),
            None => amendments_file(amendments.drop_first(), amdt_id, name, release_type),
        }
    }
}

/// The URL of a file of amendment `amdt_id`.
pub open spec fn release_url(amdt_id: u32, filename: Seq<char>) -> Seq<char> {
    CATALOG_URL@ + decimal(amdt_id as nat) + seq!['/'] + filename
}

/// The URL of the dataset named `name`, in the given release type, of
/// amendment `amdt_id`, if the catalog lists one.
pub open spec fn dataset_url(
    catalog: Catalog,
    amdt_id: u32,
    name: Seq<char>,
    release_type: Seq<char>,
) -> Option<Seq<char>> {
    match amendments_file(catalog.amendments@, amdt_id, name, release_type) {
        Some(f) => Some(release_url(amdt_id, f)),
        None => None,
    }
}

impl DatasetNode {
    /// The first leaf named `name` in depth-first order.
    pub fn find(&self, name: &str) -> (r: Option<&DatasetNode>)
        ensures
            match r {
                Some(n) => find_leaf(*self, name@) == Some(*n),
                None => find_leaf(*self, name@) is None,
            },
        decreases self,
    {
        match self {
            DatasetNode::Leaf { name: n, .. } => {
                if same_text(n.as_str(), name) {
                    Some(self)
                } else {
                    None
                }
            },
            DatasetNode::Group { items, .. } => {
                let mut i: usize = 0;
                assert(items@.subrange(0, items@.len() as int) =~= items@);
                while i < items.len()
                    invariant
                        i <= items@.len(),
                        *self == (DatasetNode::Group { name: self->Group_name, items: *items }),
                        find_in(items@, name@) == find_in(
                            items@.subrange(i as int, items@.len() as int),
                            name@,
                        ),
                    decreases items@.len() - i,
                {
                    let ghost rest = items@.subrange(i as int, items@.len() as int);
                    assert(rest[0] == items@[i as int]);
                    assert(rest.subrange(1, rest.len() as int) =~= items@.subrange(
                        i + 1,
                        items@.len() as int,
                    ));
                    assert(decreases_to!(self => items@[i as int]));
                    if let Some(found) = items[i].find(name) {
                        return Some(found);
                    }
                    i = i + 1;
                }
                assert(items@.subrange(i as int, items@.len() as int) =~= Seq::<DatasetNode>::empty());
                None
            },
        }
    }
}

fn find_release<'a>(releases: &'a Vec<Release>, release_type: &str) -> (r: Option<&'a Release>)
    ensures
        match r {
            Some(rel) => release_file(releases@, release_type@) == Some(rel.filename@),
            None => release_file(releases@, release_type@) is None,
        },
{
    let mut i: usize = 0;
    assert(releases@.subrange(0, releases@.len() as int) =~= releases@);
    while i < releases.len()
        invariant
            i <= releases@.len(),
            release_file(releases@, release_type@) == release_file(
                releases@.subrange(i as int, releases@.len() as int),
                release_type@,
            ),
        decreases releases@.len() - i,
    {
        let ghost rest = releases@.subrange(i as int, releases@.len() as int);
        assert(rest.drop_first() =~= releases@.subrange(i + 1, releases@.len() as int));
        assert(rest[0] == releases@[i as int]);
        if same_text(releases[i].release_type.as_str(), release_type) {
            return Some(&releases[i]);
        }
        i = i + 1;
    }
    None
}

fn datasets_release<'a>(roots: &'a Vec<DatasetNode>, name: &str, release_type: &str) -> (r: Option<
    &'a Release,
>)
    ensures
        match r {
            Some(rel) => datasets_file(roots@, name@, release_type@) == Some(rel.filename@),
            None => datasets_file(roots@, name@, release_type@) is None,
        },
{
    let mut i: usize = 0;
    assert(roots@.subrange(0, roots@.len() as int) =~= roots@);
    while i < roots.len()
        invariant
            i <= roots@.len(),
            datasets_file(roots@, name@, release_type@) == datasets_file(
                roots@.subrange(i as int, roots@.len() as int),
                name@,
                release_type@,
            ),
        decreases roots@.len() - i,
    {
        let ghost rest = roots@.subrange(i as int, roots@.len() as int);
        assert(rest.drop_first() =~= roots@.subrange(i + 1, roots@.len() as int));
        assert(rest[0] == roots@[i as int]);
        if let Some(DatasetNode::Leaf { releases, .. }) = roots[i].find(name) {
            if let Some(rel) = find_release(releases, release_type) {
                return Some(rel);
            }
        }
        i = i + 1;
    }
    None
}

/// The URL of the dataset named `dataset_name`, in release type
/// `release_type`, of amendment `amdt_id`.
pub fn get_dataset_url(
    catalog: &Catalog,
    amdt_id: u32,
    dataset_name: &str,
    release_type: &str,
) -> (r: Option<String>)
    ensures
        match r {
            Some(url) => dataset_url(*catalog, amdt_id, dataset_name@, release_type@) == Some(
                url@,
            ),
            None => dataset_url(*catalog, amdt_id, dataset_name@, release_type@) is None,
        },
{
    let amendments = &catalog.amendments;
    let mut i: usize = 0;
    assert(amendments@.subrange(0, amendments@.len() as int) =~= amendments@);
    while i < amendments.len()
        invariant
            i <= amendments@.len(),
            amendments@ == catalog.amendments@,
            amendments_file(amendments@, amdt_id, dataset_name@, release_type@)
                == amendments_file(
                amendments@.subrange(i as int, amendments@.len() as int),
                amdt_id,
                dataset_name@,
                release_type@,
            ),
        decreases amendments@.len() - i,
    {
        let ghost rest = amendments@.subrange(i as int, amendments@.len() as int);
        assert(rest.drop_first() =~= amendments@.subrange(i + 1, amendments@.len() as int));
        assert(rest[0] == amendments@[i as int]);
        if amendments[i].amdt == amdt_id {
            if let Some(rel) = datasets_release(&amendments[i].datasets, dataset_name, release_type) {
                let mut url = String::from_str(CATALOG_URL);
                push_decimal(&mut url, amdt_id as u64);
                proof { reveal_strlit("/"); }
                url.append("/");
                url.append(rel.filename.as_str());
                assert(url@ =~= release_url(amdt_id, rel.filename@));
                return Some(url);
            }
        }
        i = i + 1;
    }
    None
}

/// Why the datasets of a run could not be located.
#[derive(Debug)]
pub enum CatalogError {
    DatasetNotFound { dataset: String },
}

impl CatalogError {
    /// A one-line description for the log.
    pub fn message(&self) -> (r: String)
        ensures
            match self {
                CatalogError::DatasetNotFound { dataset } => r@ == "Could not find AIXM dataset ("@
                    + dataset@ + ")"@,
            },
    {
        match self {
            CatalogError::DatasetNotFound { dataset } => {
                let mut s = String::from_str("Could not find AIXM dataset (");
                s.append(dataset.as_str());
                s.append(")");
                s
            },
        }
    }
}

/// The facility datasets that a run ingests, in submission order.
pub fn standard_datasets() -> (r: Vec<String>)
    ensures
        r@.len() == 5,
        r@[0]@ == "ED AirportHeliport"@,
        r@[1]@ == "ED Navaids"@,
        r@[2]@ == "ED Routes"@,
        r@[3]@ == "ED Runway"@,
        r@[4]@ == "ED Waypoints"@,
{
    let mut v: Vec<String> = Vec::new();
    v.push(String::from_str("ED AirportHeliport"));
    v.push(String::from_str("ED Navaids"));
    v.push(String::from_str("ED Routes"));
    v.push(String::from_str("ED Runway"));
    v.push(String::from_str("ED Waypoints"));
    v
}

/// Resolves every name to its URL, or reports the first name that the catalog
/// does not list.
pub fn resolve_all(
    catalog: &Catalog,
    amdt_id: u32,
    names: &Vec<String>,
    release_type: &str,
) -> (r: Result<Vec<String>, CatalogError>)
    ensures
        match r {
            Ok(urls) => urls@.len() == names@.len() && forall|i: int|
                0 <= i < names@.len() ==> dataset_url(*catalog, amdt_id, names@[i]@, release_type@)
                    == Some(#[trigger] urls@[i]@),
            Err(CatalogError::DatasetNotFound { dataset }) => exists|k: int|
                0 <= k < names@.len() && dataset@ == names@[k]@ && dataset_url(
                    *catalog,
                    amdt_id,
                    #[trigger] names@[k]@,
                    release_type@,
                ) is None && forall|j: int|
                    0 <= j < k ==> dataset_url(*catalog, amdt_id, #[trigger] names@[j]@, release_type@)
                        is Some,
        },
{
    let mut urls: Vec<String> = Vec::new();
    let mut i: usize = 0;
    while i < names.len()
        invariant
            i <= names@.len(),
            urls@.len() == i,
            forall|j: int|
                0 <= j < i ==> dataset_url(*catalog, amdt_id, names@[j]@, release_type@) == Some(
                    #[trigger] urls@[j]@,
                ),
        decreases names@.len() - i,
    {
        match get_dataset_url(catalog, amdt_id, names[i].as_str(), release_type) {
            Some(url) => {
                urls.push(url);
            },
            None => {
                let dataset = names[i].clone();
                assert(dataset_url(*catalog, amdt_id, names@[i as int]@, release_type@) is None);
                assert forall|j: int| 0 <= j < i implies dataset_url(
                    *catalog,
                    amdt_id,
                    #[trigger] names@[j]@,
                    release_type@,
                ) is Some by {
                    assert(dataset_url(*catalog, amdt_id, names@[j]@, release_type@) == Some(
                        urls@[j]@,
                    ));
                }
                return Err(CatalogError::DatasetNotFound { dataset });
            },
        }
        i = i + 1;
    }
    Ok(urls)
}

} // verus!
