//! The fixed run configuration: the curated list of dataset locators and the
//! working directory. Kept as functions returning plain values so a run can
//! be configured explicitly rather than reading compiled-in globals.

use vstd::prelude::*;

verus! {

/// The curated, ordered list of dataset locators: gzip-compressed
/// tab-separated files with a header row. The list is chosen so that the
/// derived table identifiers and local file names are collision-free.
pub fn default_dataset_urls() -> (v: Vec<String>)
    ensures
        v@.len() == 7,
        v@[0]@ == "https://datasets.imdbws.com/name.basics.tsv.gz"@,
        v@[1]@ == "https://datasets.imdbws.com/title.basics.tsv.gz"@,
        v@[2]@ == "https://datasets.imdbws.com/title.ratings.tsv.gz"@,
        v@[3]@ == "https://datasets.imdbws.com/title.crew.tsv.gz"@,
        v@[4]@ == "https://datasets.imdbws.com/title.principals.tsv.gz"@,
        v@[5]@ == "https://datasets.imdbws.com/title.episode.tsv.gz"@,
        v@[6]@ == "https://datasets.imdbws.com/title.akas.tsv.gz"@,
{
    let mut v: Vec<String> = Vec::new();
    v.push("https://datasets.imdbws.com/name.basics.tsv.gz".to_owned());
    v.push("https://datasets.imdbws.com/title.basics.tsv.gz".to_owned());
    v.push("https://datasets.imdbws.com/title.ratings.tsv.gz".to_owned());
    v.push("https://datasets.imdbws.com/title.crew.tsv.gz".to_owned());
    v.push("https://datasets.imdbws.com/title.principals.tsv.gz".to_owned());
    v.push("https://datasets.imdbws.com/title.episode.tsv.gz".to_owned());
    v.push("https://datasets.imdbws.com/title.akas.tsv.gz".to_owned());
    v
}

/// The staging directory shared by all datasets of a run: created before the
/// first dataset, removed recursively after the last one loads.
pub fn default_work_dir() -> (d: String)
    ensures
        d@ == "./datasets"@,
{
    "./datasets".to_owned()
}

} // verus!
