//! What the widget shows: a description of the page, computed from the state.

use vstd::prelude::*;
use vstd::string::*;
use crate::model::Model;
use crate::response::ResultWikipedia;

verus! {

/// The text shown in the empty search box.
pub const PLACEHOLDER: &'static str = "Enter your search";

/// The label of the search button.
pub const BUTTON_LABEL: &'static str = "Search Data";

/// One result on the page: its title as a heading, its excerpt below, both as
/// plain text.
#[derive(Debug, Clone, PartialEq)]
pub struct ResultBlock {
    pub title: String,
    pub snippet: String,
}

/// The whole page: the search box with its current value, the button, and the
/// results region (`None` for the empty placeholder).
#[derive(Debug, Clone, PartialEq)]
pub struct Page {
    pub placeholder: String,
    pub value: String,
    pub button: String,
    pub results: Option<Vec<ResultBlock>>,
}

impl ResultBlock {
    pub open spec fn view(&self) -> (Seq<char>, Seq<char>) {
        (self.title@, self.snippet@)
    }
}

/// The block shown for one result.
pub open spec fn block_of(r: ResultWikipedia) -> (Seq<char>, Seq<char>) {
    (r.title@, r.snippet@)
}

/// Whether `blocks` shows exactly `items`, one block each, in order.
pub open spec fn shows(blocks: Seq<ResultBlock>, items: Seq<ResultWikipedia>) -> bool {
    &&& blocks.len() == items.len()
    &&& forall|i: int| 0 <= i < items.len() ==> #[trigger] blocks[i].view() == block_of(items[i])
}

impl Model {
    /// The block for one result.
    pub fn view_result(&self, result: &ResultWikipedia) -> (r: ResultBlock)
        ensures
            r.view() == block_of(*result),
    {
        ResultBlock { title: result.title.clone(), snippet: result.snippet.clone() }
    }

    /// The results region: one block per result of the last success, or
    /// nothing before any.
    pub fn view_data(&self) -> (r: Option<Vec<ResultBlock>>)
        ensures
            r is Some <==> self.data is Some,
            r matches Some(b) ==> shows(b@, self.data->0@),
    {
        match &self.data {
            Some(search) => {
                let mut blocks: Vec<ResultBlock> = Vec::new();
                let mut i: usize = 0;
                while i < search.len()
                    invariant
                        i <= search@.len(),
                        self.data == Some(*search),
                        shows(blocks@, search@.take(i as int)),
                    decreases search@.len() - i,
                {
                    let b = self.view_result(&search[i]);
                    blocks.push(b);
                    i = i + 1;
                }
                assert(search@.take(i as int) =~= search@);
                Some(blocks)
            },
            None => None,
        }
    }

    /// The page for the current state.
    pub fn view(&self) -> (r: Page)
        ensures
            r.placeholder@ == PLACEHOLDER@,
            r.value@ == self.text_search@,
            r.button@ == BUTTON_LABEL@,
            r.results is Some <==> self.data is Some,
            r.results matches Some(b) ==> shows(b@, self.data->0@),
    {
        Page {
            placeholder: String::from_str(PLACEHOLDER),
            value: self.text_search.clone(),
            button: String::from_str(BUTTON_LABEL),
            results: self.view_data(),
        }
    }
}

} // verus!
