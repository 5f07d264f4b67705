use sam_counter::action::Action;
use sam_counter::effect::Effect;
use sam_counter::manager::{SAMManager, REACTOR_DELAY_SECS};
use sam_counter::state::{AppState, REACTOR_DONE_TITLE};
use std::cell::Cell;
use std::rc::Rc;

fn at(title: &str, count: i32) -> AppState {
    AppState { title: title.to_string(), count }
}

/// Carries out `effects` as a caller would: collects the notifications and
/// calls the registered reactor where asked.
fn carry_out(sam: &SAMManager<Box<dyn Fn()>>, effects: Vec<Effect>) -> Vec<AppState> {
    let mut emitted = Vec::new();
    for effect in effects {
        match effect {
            Effect::Notify(state) => emitted.push(state),
            Effect::InvokeReactor => {
                if let Some(reactor) = &sam.reactor {
                    reactor();
                }
            }
        }
    }
    emitted
}

fn counting_engine(count: i32) -> (SAMManager<Box<dyn Fn()>>, Rc<Cell<u32>>) {
    let calls = Rc::new(Cell::new(0));
    let seen = Rc::clone(&calls);
    let mut sam: SAMManager<Box<dyn Fn()>> = SAMManager::new(at("start", count));
    sam.set_reactor(Box::new(move || seen.set(seen.get() + 1)));
    (sam, calls)
}

#[test]
fn reactor_delay_is_two_seconds() {
    assert_eq!(REACTOR_DELAY_SECS, 2);
    assert_eq!(REACTOR_DONE_TITLE, "Reactor finished external API call");
}

#[test]
fn set_reactor_fills_the_slot_and_keeps_the_state() {
    let mut sam: SAMManager<u8> = SAMManager::new(at("t", 2));
    assert_eq!(sam.reactor, None);
    sam.set_reactor(7);
    assert_eq!(sam.reactor, Some(7));
    assert_eq!(sam.state, at("t", 2));
}

#[test]
fn set_reactor_replaces_an_earlier_reactor() {
    let mut sam: SAMManager<u8> = SAMManager::new(at("t", 2));
    sam.set_reactor(7);
    sam.set_reactor(8);
    assert_eq!(sam.reactor, Some(8));
}

#[test]
fn zero_trigger_calls_the_reactor_once_and_completion_retitles() {
    let (mut sam, calls) = counting_engine(1);
    let outcome = sam.apply(Action::DecrementCounter);
    assert_eq!(outcome.state, at("API call in progress...", 0));
    let emitted = carry_out(&sam, outcome.effects);
    assert_eq!(emitted, vec![at("start", 0), at("API call in progress...", 0)]);
    assert_eq!(calls.get(), 1);
    let done = sam.complete_reactor();
    assert_eq!(sam.state, at("Reactor finished external API call", 0));
    let emitted = carry_out(&sam, done);
    assert_eq!(emitted, vec![at("Reactor finished external API call", 0)]);
    assert_eq!(calls.get(), 1);
}

#[test]
fn repeated_decrement_at_zero_does_not_call_the_reactor_again() {
    let (mut sam, calls) = counting_engine(1);
    let first = sam.apply(Action::DecrementCounter);
    carry_out(&sam, first.effects);
    for _ in 0..5 {
        let next = sam.apply(Action::DecrementCounter);
        let emitted = carry_out(&sam, next.effects);
        assert_eq!(emitted, vec![at("API call in progress...", 0)]);
    }
    assert_eq!(calls.get(), 1);
}

#[test]
fn five_trigger_does_not_call_the_reactor() {
    let (mut sam, calls) = counting_engine(4);
    let outcome = sam.apply(Action::IncrementCounter);
    let emitted = carry_out(&sam, outcome.effects);
    assert_eq!(
        emitted,
        vec![at("start", 5), at("Counter reached 5! second trigger activated.", 5)]
    );
    assert_eq!(calls.get(), 0);
}

#[test]
fn completion_keeps_the_counter_and_the_reactor() {
    let mut sam: SAMManager<u8> = SAMManager::new(at("t", 17));
    sam.set_reactor(3);
    let effects = sam.complete_reactor();
    assert_eq!(sam.state, at("Reactor finished external API call", 17));
    assert_eq!(effects, vec![Effect::Notify(at("Reactor finished external API call", 17))]);
    assert_eq!(sam.reactor, Some(3));
}

#[test]
fn completion_after_a_later_action_overwrites_its_title() {
    let (mut sam, calls) = counting_engine(1);
    let down = sam.apply(Action::DecrementCounter);
    carry_out(&sam, down.effects);
    let reset = sam.apply(Action::ResetCounter);
    carry_out(&sam, reset.effects);
    assert_eq!(sam.state, at("Counter reset!", 3));
    sam.complete_reactor();
    assert_eq!(sam.state, at("Reactor finished external API call", 3));
    assert_eq!(calls.get(), 1);
}

#[test]
fn every_entry_into_zero_calls_the_reactor() {
    let (mut sam, calls) = counting_engine(2);
    let script = [
        (Action::DecrementCounter, 0),
        (Action::DecrementCounter, 1),
        (Action::DecrementCounter, 1),
        (Action::IncrementCounter, 1),
        (Action::DecrementCounter, 2),
        (Action::ResetCounter, 2),
        (Action::DecrementCounter, 2),
        (Action::DecrementCounter, 2),
        (Action::DecrementCounter, 3),
    ];
    for (action, expected_calls) in script {
        let outcome = sam.apply(action);
        carry_out(&sam, outcome.effects);
        assert_eq!(calls.get(), expected_calls);
    }
}
