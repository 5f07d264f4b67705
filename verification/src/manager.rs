//! The engine: it owns the state and the reactor slot, applies actions and
//! says which effects follow.

use crate::action::Action;
use crate::effect::{views, Effect, EffectView};
use crate::model::{react, reaction_effects, reactor_done, step, step_effects, transition};
use crate::state::{
    AppState, API_CALL_TITLE, FIVE_TITLE, REACTOR_DONE_TITLE, RESET_COUNT, RESET_TITLE,
};
use vstd::prelude::*;

verus! {

/// The time, in seconds, that the reactor's external call takes before
/// `complete_reactor` is due.
pub const REACTOR_DELAY_SECS: u64 = 2;

/// What one call of [`SAMManager::apply`] hands back.
#[derive(Debug)]
pub struct Outcome {
    /// A snapshot of the state after the call.
    pub state: AppState,
    /// The outside work that the call asks for, in the order in which it is
    /// to be carried out.
    pub effects: Vec<Effect>,
}

/// The state manager. `R` is the type of the reactor: a callback that the
/// caller runs when an [`Effect::InvokeReactor`] comes back.
pub struct SAMManager<R> {
    /// The managed state.
    pub state: AppState,
    /// The reactor slot: empty until `set_reactor` fills it.
    pub reactor: Option<R>,
}

impl<R> SAMManager<R> {
    /// Whether a reactor is registered.
    pub open spec fn has_reactor(&self) -> bool {
        self.reactor is Some
    }

    /// Whether `apply` can take `action` in this state: the counter has
    /// room for what the action adds.
    pub open spec fn accepts(&self, action: Action) -> bool {
        action == Action::IncrementCounter ==> self.state.count < i32::MAX
    }

    /// An engine that holds `initial_state` and no reactor.
    pub fn new(initial_state: AppState) -> (manager: Self)
        ensures
            manager.state == initial_state,
            manager.reactor is None,
    {
        SAMManager { state: initial_state, reactor: None }
    }

    /// Registers `reactor` in place of any reactor registered before. The
    /// state stays as it is.
    pub fn set_reactor(&mut self, reactor: R)
        ensures
            final(self).reactor == Some(reactor),
            final(self).state == old(self).state,
    {
        self.reactor = Some(reactor);
    }

    /// A snapshot of the state as it is now.
    pub fn get_state(&self) -> (snapshot: AppState)
        ensures
            snapshot@ == self.state@,
    {
        self.state.clone()
    }

    /// Tests whether `apply` can take `action` in this state.
    pub fn can_apply(&self, action: Action) -> (yes: bool)
        ensures
            yes == self.accepts(action),
    {
        match action {
            Action::IncrementCounter => self.state.count < i32::MAX,
            _ => true,
        }
    }

    /// Looks at the counter after a transition from `old_count` and reacts
    /// to its arrival at zero or at five: the title changes, and the effects
    /// that come back notify of the change and, on the way into zero, call
    /// the reactor. Where no trigger fires, nothing changes and nothing comes
    /// back.
    pub fn handle_api_triggers(&mut self, old_count: i32) -> (effects: Vec<Effect>)
        ensures
            final(self).state@ == react(old(self).state@, old_count as int),
            views(effects@) == reaction_effects(
                old(self).state@,
                old_count as int,
                old(self).has_reactor(),
            ),
            final(self).reactor == old(self).reactor,
            old(self).state.wf() ==> final(self).state.wf(),
    {
        let mut effects: Vec<Effect> = Vec::new();
        match self.state.count {
            0 => {
                if old_count > 0 {
                    self.state.title = API_CALL_TITLE.to_string();
                    effects.push(Effect::Notify(self.state.clone()));
                    if self.reactor.is_some() {
                        effects.push(Effect::InvokeReactor);
                    }
                }
            },
            5 => {
                if old_count != 5 {
                    self.state.title = FIVE_TITLE.to_string();
                    effects.push(Effect::Notify(self.state.clone()));
                }
            },
            _ => {},
        }
        assert(views(effects@) =~= reaction_effects(
            old(self).state@,
            old_count as int,
            old(self).has_reactor(),
        ));
        effects
    }

    /// Applies `action`: the transition first, with its notification, then
    /// the triggers, judged by the counter before and after.
    pub fn apply(&mut self, action: Action) -> (outcome: Outcome)
        requires
            old(self).accepts(action),
        ensures
            final(self).state@ == step(old(self).state@, action),
            outcome.state@ == final(self).state@,
            views(outcome.effects@) == step_effects(
                old(self).state@,
                action,
                old(self).has_reactor(),
            ),
            final(self).reactor == old(self).reactor,
            old(self).state.wf() ==> final(self).state.wf(),
    {
        let old_count = self.state.count;
        match action {
            Action::DecrementCounter => {
                if self.state.count > 0 {
                    self.state.count -= 1;
                }
            },
            Action::IncrementCounter => {
                self.state.count += 1;
            },
            Action::ResetCounter => {
                self.state.count = RESET_COUNT;
                self.state.title = RESET_TITLE.to_string();
            },
        }
        let mut effects: Vec<Effect> = Vec::new();
        effects.push(Effect::Notify(self.state.clone()));
        let ghost notified = effects@;
        let mut triggered = self.handle_api_triggers(old_count);
        let ghost reacted = triggered@;
        effects.append(&mut triggered);
        assert(views(effects@) =~= views(notified) + views(reacted));
        assert(views(notified) =~= seq![EffectView::Notify(transition(old(self).state@, action))]);
        Outcome { state: self.state.clone(), effects }
    }

    /// Takes one off the counter, unless it is not positive.
    pub fn decrement_counter(&mut self) -> (outcome: Outcome)
        ensures
            final(self).state@ == step(old(self).state@, Action::DecrementCounter),
            outcome.state@ == final(self).state@,
            views(outcome.effects@) == step_effects(
                old(self).state@,
                Action::DecrementCounter,
                old(self).has_reactor(),
            ),
            final(self).reactor == old(self).reactor,
            old(self).state.wf() ==> final(self).state.wf(),
    {
        self.apply(Action::DecrementCounter)
    }

    /// Adds one to the counter.
    pub fn increment_counter(&mut self) -> (outcome: Outcome)
        requires
            old(self).state.count < i32::MAX,
        ensures
            final(self).state@ == step(old(self).state@, Action::IncrementCounter),
            outcome.state@ == final(self).state@,
            views(outcome.effects@) == step_effects(
                old(self).state@,
                Action::IncrementCounter,
                old(self).has_reactor(),
            ),
            final(self).reactor == old(self).reactor,
            old(self).state.wf() ==> final(self).state.wf(),
    {
        self.apply(Action::IncrementCounter)
    }

    /// Puts the counter and the title back to their reset values.
    pub fn reset_counter(&mut self) -> (outcome: Outcome)
        ensures
            final(self).state@ == step(old(self).state@, Action::ResetCounter),
            outcome.state@ == final(self).state@,
            views(outcome.effects@) == step_effects(
                old(self).state@,
                Action::ResetCounter,
                old(self).has_reactor(),
            ),
            final(self).reactor == old(self).reactor,
            old(self).state.wf() ==> final(self).state.wf(),
    {
        self.apply(Action::ResetCounter)
    }

    /// Records that the reactor's external call has come back: the title
    /// says so, the counter stays, and the one effect that comes back
    /// notifies of the new state.
    pub fn complete_reactor(&mut self) -> (effects: Vec<Effect>)
        ensures
            final(self).state@ == reactor_done(old(self).state@),
            views(effects@) == seq![EffectView::Notify(final(self).state@)],
            final(self).reactor == old(self).reactor,
            old(self).state.wf() ==> final(self).state.wf(),
    {
        self.state.title = REACTOR_DONE_TITLE.to_string();
        let mut effects: Vec<Effect> = Vec::new();
        effects.push(Effect::Notify(self.state.clone()));
        assert(views(effects@) =~= seq![EffectView::Notify(self.state@)]);
        effects
    }
}

} // verus!
