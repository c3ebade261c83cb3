//! A virtual pet driven by single-letter actions: a verified state machine for
//! its mood, pleasure, health and light/sleep cycle.

pub mod face;
pub mod pet;
pub mod laws;
