//! A search widget modelled as a pure state machine: user events and fetch
//! outcomes drive a `Model`, which says when to redraw and which request to
//! issue, and a render function maps the state to a page description.

pub mod response;
pub mod url;
pub mod model;
pub mod view;
pub mod laws;

pub use response::{ContinueWikipedia, DataFromFile, QueryWikipedia, ResultWikipedia, SearchInfo};
pub use url::{percent_encode_into, search_url, unreserved, SEARCH_ENDPOINT};
pub use model::{fetch_outcome, FetchError, Model, Msg, Update};
pub use view::{Page, ResultBlock, BUTTON_LABEL, PLACEHOLDER};
