//! The records the surrounding application persists: finished downloads,
//! search history, and settings. Persistence itself is a collaborator at
//! the boundary; these are the shapes it stores and returns.

use vstd::prelude::*;

verus! {

/// One stored download: what was fetched, where it went, and how it ended.
#[derive(Debug)]
pub struct Download {
    pub id: String,
    pub title: String,
    pub url: String,
    pub format: String,
    pub path: String,
    pub timestamp: i64,
    pub status: String,
    pub size_bytes: Option<i64>,
    pub platform: Option<String>,
    pub thumbnail: Option<String>,
}

/// One stored search: the query and what it resolved to.
#[derive(Debug)]
pub struct SearchHistory {
    pub id: String,
    pub query: String,
    pub timestamp: i64,
    pub title: Option<String>,
    pub thumbnail: Option<String>,
}

/// One stored setting: a key and its value.
#[derive(Debug)]
pub struct Setting {
    pub key: String,
    pub value: String,
}

} // verus!
