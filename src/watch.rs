//! The blocking-query watch engine, as a state machine that the caller drives: it asks for the
//! options of the next request, then reports the response's metadata or the failure.
//!
//! Each request carries the blocking condition derived from the previous response, so the server's
//! long-poll hold time paces the loop. The first failure ends the watch for good.
use vstd::prelude::*;

use crate::common::{next_blocking, query_options_default, Blocking, QueryMetadata, QueryOptions};

verus! {

/// Where a watch stands between two requests.
#[derive(Debug)]
pub enum WatchState {
    /// No blocking condition is carried: the next request is a plain poll.
    Idle,
    /// The next request blocks on the condition derived from the last response.
    Blocked(Blocking),
    /// A request failed; no further request is made.
    Failed,
}

/// The blocking condition that a state carries into the next request.
pub open spec fn carried(s: WatchState) -> Option<Blocking> {
    match s {
        WatchState::Blocked(b) => Some(b),
        _ => None,
    }
}

/// The state that a successful response with this metadata leads to.
pub open spec fn state_after(m: QueryMetadata) -> WatchState {
    match next_blocking(m) {
        Some(b) => WatchState::Blocked(b),
        None => WatchState::Idle,
    }
}

/// The options with their blocking condition replaced.
pub open spec fn with_blocking(o: QueryOptions, b: Option<Blocking>) -> QueryOptions {
    QueryOptions { blocking: b, ..o }
}

/// A watch over one query: the options of its requests and the state between them.
#[derive(Debug)]
pub struct Watch {
    options: QueryOptions,
    state: WatchState,
}

impl Watch {
    /// The state between two requests.
    pub closed spec fn state(&self) -> WatchState {
        self.state
    }

    /// The options of the latest request; before the first, those that the watch was made with.
    pub closed spec fn request_options(&self) -> QueryOptions {
        self.options
    }

    /// A watch in the idle state, over the given options or, without them, the defaults.
    pub fn new(options: Option<QueryOptions>) -> (r: Watch)
        ensures
            r.state() is Idle,
            r.request_options() == match options {
                Some(o) => o,
                None => query_options_default(),
            },
    {
        let options = match options {
            Some(o) => o,
            None => QueryOptions::default(),
        };
        Watch { options, state: WatchState::Idle }
    }

    /// Whether the watch has ended.
    pub fn is_finished(&self) -> (r: bool)
        ensures
            r == self.state() is Failed,
    {
        match self.state {
            WatchState::Failed => true,
            _ => false,
        }
    }

    /// Prepares the next request: the carried blocking condition moves into the options, and the
    /// watch is idle until the response is recorded. Returns `false`, changing nothing, once the
    /// watch has ended.
    pub fn next_request(&mut self) -> (r: bool)
        ensures
            r == !(old(self).state() is Failed),
            r ==> final(self).request_options() == with_blocking(
                old(self).request_options(),
                carried(old(self).state()),
            ),
            r ==> final(self).state() is Idle,
            !r ==> *final(self) == *old(self),
    {
        if self.is_finished() {
            return false;
        }
        let mut taken = WatchState::Idle;
        std::mem::swap(&mut self.state, &mut taken);
        self.options.blocking = match taken {
            WatchState::Blocked(b) => Some(b),
            _ => None,
        };
        true
    }

    /// The options of the latest request.
    pub fn options(&self) -> (r: &QueryOptions)
        ensures
            *r == self.request_options(),
    {
        &self.options
    }

    /// Records a successful response: the next request blocks on the content hash of this
    /// response if it has one, else on its index if it has one, else not at all.
    pub fn on_response(&mut self, meta: &QueryMetadata)
        requires
            !(old(self).state() is Failed),
        ensures
            final(self).state() == state_after(*meta),
            final(self).request_options() == old(self).request_options(),
    {
        self.state = match meta.as_blocking() {
            Some(b) => WatchState::Blocked(b),
            None => WatchState::Idle,
        };
    }

    /// Records a failed request, which ends the watch.
    pub fn on_error(&mut self)
        ensures
            final(self).state() is Failed,
            final(self).request_options() == old(self).request_options(),
    {
        self.state = WatchState::Failed;
    }
}

} // verus!
