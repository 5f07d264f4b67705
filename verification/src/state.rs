//! The record that the engine manages, and the texts that its title takes.

use vstd::prelude::*;

verus! {

/// The counter's value when the engine starts and after every reset.
pub const RESET_COUNT: i32 = 3;

/// The title with which the engine starts.
pub const INITIAL_TITLE: &'static str = "Initial Hello From Rust!";

/// The title after a reset.
pub const RESET_TITLE: &'static str = "Counter reset!";

/// The title while the reactor's external call is under way.
pub const API_CALL_TITLE: &'static str = "API call in progress...";

/// The title once the counter has come to five.
pub const FIVE_TITLE: &'static str = "Counter reached 5! second trigger activated.";

/// The title once the reactor's external call has come back.
pub const REACTOR_DONE_TITLE: &'static str = "Reactor finished external API call";

/// The managed state: a title and a counter.
#[derive(Debug, PartialEq, Eq)]
pub struct AppState {
    /// The text shown with the counter.
    pub title: String,
    /// The counter.
    pub count: i32,
}

/// An `AppState` as a mathematical value.
pub struct AppStateView {
    pub title: Seq<char>,
    pub count: int,
}

impl AppStateView {
    /// Whether the counter is in the range in which the engine keeps it:
    /// not below zero.
    pub open spec fn wf(self) -> bool {
        self.count >= 0
    }
}

impl View for AppState {
    type V = AppStateView;

    open spec fn view(&self) -> AppStateView {
        AppStateView { title: self.title@, count: self.count as int }
    }
}

impl Clone for AppState {
    /// A snapshot: a copy with the same title and the same count.
    fn clone(&self) -> (copy: Self)
        ensures
            copy@ == self@,
    {
        AppState { title: self.title.clone(), count: self.count }
    }
}

impl AppState {
    /// Whether the counter is in the range in which the engine keeps it.
    pub open spec fn wf(&self) -> bool {
        self@.wf()
    }

    /// The state with which the engine starts.
    pub fn initial() -> (state: AppState)
        ensures
            state@ == (AppStateView { title: INITIAL_TITLE@, count: 3 }),
            state.wf(),
    {
        AppState { title: INITIAL_TITLE.to_string(), count: RESET_COUNT }
    }
}

} // verus!
