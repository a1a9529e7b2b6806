//! Component lifecycle state machine.
//!
//! A trading platform runs many managed subsystems (strategies, data and
//! execution clients, risk engines), each of which moves through a fixed
//! vocabulary of operational states. This crate provides that vocabulary
//! ([`component::ComponentState`], [`component::ComponentTrigger`]), the pure
//! transition table that decides which moves are legal
//! ([`transition`]), and the per-component controller that owns a current
//! state, serializes trigger application, runs the component's lifecycle
//! hooks and reports every accepted or rejected transition to a logging
//! collaborator ([`controller`]).
//!
//! The flat domain enumerations that surround the state machine (order
//! types, asset classes, and the like) are carried in [`domain`]; the
//! logging vocabulary in [`logging`]. Every enumeration has a stable
//! integer value and a canonical string form, parsed case-insensitively
//! ([`casefold`]).

pub mod casefold;
pub mod component;
pub mod controller;
pub mod domain;
pub mod errors;
pub mod logging;
pub mod transition;
