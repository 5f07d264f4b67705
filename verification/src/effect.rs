//! What the engine asks of its caller after a change of state.

use crate::state::{AppState, AppStateView};
use vstd::prelude::*;

verus! {

/// The name of the event under which a notification is emitted.
pub const STATE_UPDATED: &'static str = "state_updated";

/// One piece of outside work. The engine decides on it; the caller, which
/// holds the notification sink and can run the reactor, carries it out.
#[derive(Debug, PartialEq, Eq)]
pub enum Effect {
    /// Emit `STATE_UPDATED` with this snapshot of the state.
    Notify(AppState),
    /// Call the registered reactor.
    InvokeReactor,
}

/// An `Effect` as a mathematical value.
pub enum EffectView {
    Notify(AppStateView),
    InvokeReactor,
}

impl View for Effect {
    type V = EffectView;

    open spec fn view(&self) -> EffectView {
        match self {
            Effect::Notify(snapshot) => EffectView::Notify(snapshot@),
            Effect::InvokeReactor => EffectView::InvokeReactor,
        }
    }
}

/// The effects of a list, each as a mathematical value, in the same order.
pub open spec fn views(effects: Seq<Effect>) -> Seq<EffectView> {
    effects.map_values(|e: Effect| e@)
}

} // verus!
