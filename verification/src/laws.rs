//! What holds of the engine's rules on every state and every sequence of
//! actions.

use crate::action::Action;
use crate::effect::EffectView;
use crate::model::{reactor_done, run, step, step_effects, transition, trigger_for, Trigger};
use crate::state::{AppStateView, API_CALL_TITLE, FIVE_TITLE, REACTOR_DONE_TITLE, RESET_TITLE};
use vstd::prelude::*;

verus! {

/// A counter that is not negative stays so through every sequence of
/// actions.
pub proof fn lemma_count_never_negative(s: AppStateView, actions: Seq<Action>)
    requires
        s.wf(),
    ensures
        run(s, actions).wf(),
    decreases actions.len(),
{
    if actions.len() > 0 {
        lemma_count_never_negative(s, actions.drop_last());
    }
}

/// A decrement at zero leaves the title and the counter as they are and
/// fires no trigger: its one effect is the notification of the unchanged
/// state.
pub proof fn lemma_decrement_at_zero(s: AppStateView, has_reactor: bool)
    requires
        s.count == 0,
    ensures
        step(s, Action::DecrementCounter) == s,
        trigger_for(s.count, transition(s, Action::DecrementCounter).count) is None,
        step_effects(s, Action::DecrementCounter, has_reactor) == seq![EffectView::Notify(s)],
{
}

/// A reset leads to the counter three and the reset title from every state,
/// and fires no trigger: its one effect is the notification of that state.
pub proof fn lemma_reset(s: AppStateView, has_reactor: bool)
    ensures
        step(s, Action::ResetCounter) == (AppStateView { title: RESET_TITLE@, count: 3 }),
        trigger_for(s.count, transition(s, Action::ResetCounter).count) is None,
        step_effects(s, Action::ResetCounter, has_reactor) == seq![
            EffectView::Notify(step(s, Action::ResetCounter)),
        ],
{
}

/// The triggers fire on the way into their value and nowhere else: the zero
/// trigger on a decrement from one, the five trigger on an increment from
/// four and on a decrement from six.
pub proof fn lemma_trigger_edges(s: AppStateView, action: Action)
    ensures
        trigger_for(s.count, transition(s, action).count) == Some(Trigger::Zero) <==> s.count == 1
            && action == Action::DecrementCounter,
        trigger_for(s.count, transition(s, action).count) == Some(Trigger::Five) <==> (s.count
            == 4 && action == Action::IncrementCounter) || (s.count == 6 && action
            == Action::DecrementCounter),
{
}

/// A decrement from one fires the zero trigger, whatever came before: the
/// step notifies of the counter at zero under the old title, then under the
/// title of the call in progress, and then asks for the reactor, if one is
/// registered. The reactor's completion changes the title once more and
/// keeps the counter.
pub proof fn lemma_zero_trigger(s: AppStateView, has_reactor: bool)
    requires
        s.count == 1,
    ensures
        step(s, Action::DecrementCounter) == (AppStateView { title: API_CALL_TITLE@, count: 0 }),
        step_effects(s, Action::DecrementCounter, has_reactor) == seq![
            EffectView::Notify(AppStateView { title: s.title, count: 0 }),
            EffectView::Notify(AppStateView { title: API_CALL_TITLE@, count: 0 }),
        ] + if has_reactor {
            seq![EffectView::InvokeReactor]
        } else {
            seq![]
        },
        reactor_done(step(s, Action::DecrementCounter)) == (AppStateView {
            title: REACTOR_DONE_TITLE@,
            count: 0,
        }),
{
}

/// An arrival at five fires the five trigger, whatever came before, be it
/// the first arrival or a later one: the step notifies of the counter at
/// five under the old title, then under the title of the five trigger, and
/// never asks for the reactor.
pub proof fn lemma_five_trigger(s: AppStateView, action: Action, has_reactor: bool)
    requires
        (s.count == 4 && action == Action::IncrementCounter) || (s.count == 6 && action
            == Action::DecrementCounter),
    ensures
        step(s, action) == (AppStateView { title: FIVE_TITLE@, count: 5 }),
        step_effects(s, action, has_reactor) == seq![
            EffectView::Notify(AppStateView { title: s.title, count: 5 }),
            EffectView::Notify(AppStateView { title: FIVE_TITLE@, count: 5 }),
        ],
{
}

/// Every step notifies first of the state after its transition, and its
/// last effect but for the call of the reactor notifies of the state in
/// which it ends.
pub proof fn lemma_step_notifies(s: AppStateView, action: Action, has_reactor: bool)
    ensures
        step_effects(s, action, has_reactor).len() >= 1,
        step_effects(s, action, has_reactor).first() == EffectView::Notify(transition(s, action)),
        step_effects(s, action, has_reactor).last() == EffectView::Notify(step(s, action)) || (
        step_effects(s, action, has_reactor).last() == EffectView::InvokeReactor && step_effects(
            s,
            action,
            has_reactor,
        ).drop_last().last() == EffectView::Notify(step(s, action))),
{
}

/// Every snapshot that a step notifies of is a state that the engine held
/// as a whole, the one after the transition or the one in which the step
/// ends, and so carries the counter in which the step ends.
pub proof fn lemma_snapshots_are_whole(
    s: AppStateView,
    action: Action,
    has_reactor: bool,
    i: int,
)
    requires
        0 <= i < step_effects(s, action, has_reactor).len(),
    ensures
        step_effects(s, action, has_reactor)[i] matches EffectView::Notify(snapshot) ==> {
            &&& snapshot == transition(s, action) || snapshot == step(s, action)
            &&& snapshot.count == step(s, action).count
        },
{
}

} // verus!
