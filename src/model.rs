//! The widget's state and its transition on each event.

use vstd::prelude::*;
use crate::response::{DataFromFile, ResultWikipedia};
use crate::url::{search_url, search_url_of};

verus! {

/// Why a fetch brought no results.
#[derive(Debug, Clone, Copy, PartialEq, Eq)]
pub enum FetchError {
    /// The server answered with a status outside 200..=299.
    Status(u16),
    /// The answer had a success status but not the expected shape.
    Decode,
}

/// The events that the widget reacts to.
pub enum Msg {
    /// The user asked for a search with the current text.
    FetchData,
    /// The outcome of the search request.
    FetchReady(Result<DataFromFile, FetchError>),
    /// An event with no effect.
    Ignore,
    /// The user changed the search text.
    UpdateSearchText(String),
}

/// The widget's state.
pub struct Model {
    /// Whether a request is in flight.
    pub fetching: bool,
    /// The current search text.
    pub text_search: String,
    /// The matches of the last successful search, if any.
    pub data: Option<Vec<ResultWikipedia>>,
}

/// What the host does after a transition.
pub struct Update {
    /// Whether the page must be drawn again.
    pub render: bool,
    /// The URL of the one request to issue, if any.
    pub request: Option<String>,
}

/// The state after `msg`.
pub open spec fn step(m: Model, msg: Msg) -> Model {
    match msg {
        Msg::FetchData => Model { fetching: true, ..m },
        Msg::FetchReady(Ok(d)) => Model { fetching: false, data: Some(d.query.search), ..m },
        Msg::FetchReady(Err(_)) => Model { fetching: false, ..m },
        Msg::Ignore => m,
        Msg::UpdateSearchText(s) => Model { text_search: s, ..m },
    }
}

/// Whether `msg` changes what is shown, so that the page must be redrawn.
pub open spec fn redraws(msg: Msg) -> bool {
    match msg {
        Msg::FetchData => true,
        Msg::FetchReady(r) => r is Ok,
        Msg::Ignore => false,
        Msg::UpdateSearchText(_) => true,
    }
}

/// Whether an HTTP status code means success.
pub open spec fn is_success(status: u16) -> bool {
    200 <= status && status <= 299
}

/// The event that a finished request becomes, from its status and the
/// decoded body (`None` where the body did not decode).
pub open spec fn outcome(status: u16, decoded: Option<DataFromFile>) -> Msg {
    if !is_success(status) {
        Msg::FetchReady(Err(FetchError::Status(status)))
    } else {
        match decoded {
            Some(d) => Msg::FetchReady(Ok(d)),
            None => Msg::FetchReady(Err(FetchError::Decode)),
        }
    }
}

/// Turns a finished request into the event that it delivers: a success status
/// with a decoded body succeeds, anything else fails.
pub fn fetch_outcome(status: u16, decoded: Option<DataFromFile>) -> (r: Msg)
    ensures
        r == outcome(status, decoded),
{
    if !(200 <= status && status <= 299) {
        Msg::FetchReady(Err(FetchError::Status(status)))
    } else {
        match decoded {
            Some(d) => Msg::FetchReady(Ok(d)),
            None => Msg::FetchReady(Err(FetchError::Decode)),
        }
    }
}

impl Model {
    /// The state of a newly mounted widget: empty text, nothing in flight, no
    /// results.
    pub fn create() -> (r: Model)
        ensures
            r.text_search@ == Seq::<char>::empty(),
            !r.fetching,
            r.data is None,
    {
        Model { fetching: false, text_search: String::new(), data: None }
    }

    /// The URL of the request that searches for the current text.
    pub fn request_url(&self) -> (r: String)
        ensures
            r@ == search_url_of(self.text_search@),
    {
        search_url(self.text_search.as_str())
    }

    /// Applies `msg`; says whether to redraw and which request to issue.
    pub fn update(&mut self, msg: Msg) -> (r: Update)
        ensures
            *final(self) == step(*old(self), msg),
            r.render == redraws(msg),
            r.request is Some <==> msg is FetchData,
            r.request matches Some(u) ==> u@ == search_url_of(old(self).text_search@),
    {
        match msg {
            Msg::FetchData => {
                self.fetching = true;
                let url = self.request_url();
                Update { render: true, request: Some(url) }
            },
            Msg::FetchReady(response) => {
                self.fetching = false;
                match response {
                    Ok(d) => {
                        self.data = Some(d.query.search);
                        Update { render: true, request: None }
                    },
                    Err(_) => Update { render: false, request: None },
                }
            },
            Msg::Ignore => Update { render: false, request: None },
            Msg::UpdateSearchText(val) => {
                self.text_search = val;
                Update { render: true, request: None }
            },
        }
    }
}

} // verus!
