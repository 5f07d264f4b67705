//! The engine's rules over mathematical values: how an action changes the
//! state, when a trigger fires, and which effects follow.

use crate::action::Action;
use crate::effect::EffectView;
use crate::state::{
    AppStateView, API_CALL_TITLE, FIVE_TITLE, REACTOR_DONE_TITLE, RESET_COUNT, RESET_TITLE,
};
use vstd::prelude::*;

verus! {

/// The counter after `action`, over unbounded integers. A decrement stops at
/// zero, and leaves a counter below zero where it is.
pub open spec fn next_count(count: int, action: Action) -> int {
    match action {
        Action::DecrementCounter => if count > 0 {
            count - 1
        } else {
            count
        },
        Action::IncrementCounter => count + 1,
        Action::ResetCounter => RESET_COUNT as int,
    }
}

/// A reaction to the counter's arrival at a designated value.
pub enum Trigger {
    /// The counter came down to zero from a positive value.
    Zero,
    /// The counter came to five from another value.
    Five,
}

/// The trigger that fires when the counter goes from `old_count` to
/// `new_count`. It looks at the edge only: a counter that stays at zero or at
/// five fires nothing.
pub open spec fn trigger_for(old_count: int, new_count: int) -> Option<Trigger> {
    if new_count == 0 && old_count > 0 {
        Some(Trigger::Zero)
    } else if new_count == 5 && old_count != 5 {
        Some(Trigger::Five)
    } else {
        None
    }
}

/// The title that a trigger sets.
pub open spec fn trigger_title(trigger: Trigger) -> Seq<char> {
    match trigger {
        Trigger::Zero => API_CALL_TITLE@,
        Trigger::Five => FIVE_TITLE@,
    }
}

/// The state after `action`, before any trigger is looked at.
pub open spec fn transition(s: AppStateView, action: Action) -> AppStateView {
    AppStateView {
        title: if action == Action::ResetCounter {
            RESET_TITLE@
        } else {
            s.title
        },
        count: next_count(s.count, action),
    }
}

/// The state after the triggers have been looked at, where the counter was
/// `old_count` before the transition that led to `s`.
pub open spec fn react(s: AppStateView, old_count: int) -> AppStateView {
    match trigger_for(old_count, s.count) {
        Some(trigger) => AppStateView { title: trigger_title(trigger), count: s.count },
        None => s,
    }
}

/// The effects of looking at the triggers in `s`: nothing where none fires,
/// else a notification of the retitled state, followed on the way into zero
/// by the call of the reactor, if one is registered.
pub open spec fn reaction_effects(s: AppStateView, old_count: int, has_reactor: bool) -> Seq<
    EffectView,
> {
    match trigger_for(old_count, s.count) {
        Some(Trigger::Zero) => if has_reactor {
            seq![EffectView::Notify(react(s, old_count)), EffectView::InvokeReactor]
        } else {
            seq![EffectView::Notify(react(s, old_count))]
        },
        Some(Trigger::Five) => seq![EffectView::Notify(react(s, old_count))],
        None => seq![],
    }
}

/// The state after one whole step: the transition, then the triggers.
pub open spec fn step(s: AppStateView, action: Action) -> AppStateView {
    react(transition(s, action), s.count)
}

/// The effects of one whole step, in order: the notification of the
/// transition, which every step has, then those of the triggers.
pub open spec fn step_effects(s: AppStateView, action: Action, has_reactor: bool) -> Seq<
    EffectView,
> {
    seq![EffectView::Notify(transition(s, action))] + reaction_effects(
        transition(s, action),
        s.count,
        has_reactor,
    )
}

/// The state once the reactor's external call has come back.
pub open spec fn reactor_done(s: AppStateView) -> AppStateView {
    AppStateView { title: REACTOR_DONE_TITLE@, count: s.count }
}

/// The state after a sequence of steps, taken from left to right.
pub open spec fn run(s: AppStateView, actions: Seq<Action>) -> AppStateView
    decreases actions.len(),
{
    if actions.len() == 0 {
        s
    } else {
        step(run(s, actions.drop_last()), actions.last())
    }
}

} // verus!
