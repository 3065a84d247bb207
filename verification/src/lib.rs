//! A cash machine as a pure state machine: a card swipe opens a session, the
//! keypad collects a PIN and then an amount, and every transition is a total
//! function from the current state and one action to the next state.
//!
//! Beside the machine stand two sets of small drills, on ownership and on
//! traits.

pub mod atm;
pub mod decimal;
pub mod keys;
pub mod laws;
pub mod ownership;
pub mod register;
pub mod traits;

pub use crate::atm::{Action, Atm, AtmState, Auth};
pub use crate::keys::Key;
pub use crate::register::{decode, hash};
