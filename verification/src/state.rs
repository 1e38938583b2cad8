//! The root application state and the decisions applied when a fetch is
//! started or finishes.

use vstd::prelude::*;
use crate::highlights::StoredHighlight;
use crate::ingest::HighlightError;

verus! {

/// The root application state: the current raw sequence that grouping and
/// rendering read, the last fetch failure to surface, and the token of the
/// last fetch that was started.
pub struct AppState {
    /// The flat raw sequence currently displayed.
    pub highlights: Vec<StoredHighlight>,
    /// The failure of the most recent finished fetch, if it failed and no
    /// later fetch succeeded; the previously displayed records stay.
    pub last_error: Option<HighlightError>,
    /// The token handed to the fetch started most recently.
    pub latest_request: u64,
}

impl AppState {
    /// The state before any fetch: nothing displayed, no error, no fetch
    /// started.
    pub fn new() -> (s: AppState)
        ensures
            s.highlights@.len() == 0,
            s.last_error is None,
            s.latest_request == 0,
    {
        AppState { highlights: Vec::new(), last_error: None, latest_request: 0 }
    }

    /// Starts a fetch: hands out a fresh token and remembers it as the
    /// latest, so that an older fetch resolving later is ignored and the
    /// last-started fetch wins. The displayed records and the error
    /// indicator are untouched.
    pub fn begin_fetch(&mut self) -> (token: u64)
        ensures
            final(self).latest_request == token,
            old(self).latest_request < u64::MAX ==> token == old(self).latest_request + 1,
            old(self).latest_request == u64::MAX ==> token == 0,
            final(self).highlights == old(self).highlights,
            final(self).last_error == old(self).last_error,
    {
        let token: u64 = if self.latest_request == u64::MAX {
            0
        } else {
            self.latest_request + 1
        };
        self.latest_request = token;
        token
    }

    /// Applies the outcome of a finished fetch. A stale outcome, one whose
    /// token is not the latest, changes nothing. The latest fetch replaces
    /// the displayed records in one assignment on success; on failure it
    /// keeps them and surfaces the error.
    pub fn apply_fetch_result(
        &mut self,
        token: u64,
        outcome: Result<Vec<StoredHighlight>, HighlightError>,
    )
        ensures
            final(self).latest_request == old(self).latest_request,
            token != old(self).latest_request ==> final(self).highlights == old(self).highlights
                && final(self).last_error == old(self).last_error,
            token == old(self).latest_request ==> (match outcome {
                Ok(recs) => final(self).highlights == recs && final(self).last_error is None,
                Err(e) => final(self).highlights == old(self).highlights
                    && final(self).last_error == Some(e),
            }),
    {
        if token != self.latest_request {
            return ;
        }
        match outcome {
            Ok(recs) => {
                self.highlights = recs;
                self.last_error = None;
            },
            Err(e) => {
                self.last_error = Some(e);
            },
        }
    }
}

} // verus!
