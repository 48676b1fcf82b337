//! A stack-based state machine that decides which mode of an application is
//! active and applies the transitions that the active mode requests.
pub mod lemmas;
pub mod state;

pub use state::{Call, Hook, State, StateMachine, Trans};
