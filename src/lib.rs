//! Suppression of chosen keyboard keys: a registry of symbolic key names, the
//! set of suppressed key codes built from user tokens, the decision taken for
//! every low-level keyboard event, and the state machine of the message loop
//! that keeps the keyboard hook alive.

pub mod registry;
pub mod suppression;
pub mod hook;
pub mod event_loop;
pub mod startup;
