//! A counter driven by a small state-action-model engine.
//!
//! The engine owns one [`state::AppState`], takes [`action::Action`]s and
//! answers each with the effects that its caller has to carry out:
//! notifications of the new state and, on the way into zero, the call of
//! the registered reactor.

pub mod action;
pub mod effect;
pub mod laws;
pub mod manager;
pub mod model;
pub mod state;
