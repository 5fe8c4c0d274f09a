//! The shape of a search-API answer, as the widget keeps it.

use vstd::prelude::*;

verus! {

/// One matching document.
#[derive(Debug, Clone, PartialEq)]
pub struct ResultWikipedia {
    pub ns: u32,
    pub title: String,
    pub pageid: u32,
    pub size: u32,
    pub wordcount: u32,
    pub snippet: String,
    pub timestamp: String,
}

/// Totals reported with a result set.
#[derive(Debug, Clone, PartialEq)]
pub struct SearchInfo {
    pub totalhits: u32,
}

/// The `query` part of an answer: totals and the ordered matches.
#[derive(Debug, Clone, PartialEq)]
pub struct QueryWikipedia {
    pub searchinfo: SearchInfo,
    pub search: Vec<ResultWikipedia>,
}

/// Where a following page of results would start; carried but not used.
#[derive(Debug, Clone, PartialEq)]
pub struct ContinueWikipedia {
    pub sroffset: u32,
    pub token: String,
}

/// A whole decoded answer.
#[derive(Debug, Clone, PartialEq)]
pub struct DataFromFile {
    pub batchcomplete: String,
    pub continuation: ContinueWikipedia,
    pub query: QueryWikipedia,
}

} // verus!
