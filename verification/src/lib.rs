//! Verified control core of a terminal task-list manager.
//!
//! The library holds the parts with real invariants: the bounded selection
//! cursor shared by every list-like widget, the fuzzy ranking engine, the
//! flash-notification state with stale-expiry protection, the intent
//! messages, and the mode state machine of the controller. Terminal setup,
//! rendering and persistence are left to the binary built around it.

pub mod app;
pub mod calendar;
pub mod channel;
pub mod cursor;
pub mod datetime;
pub mod due_date;
pub mod input;
pub mod hints;
pub mod notify;
pub mod paragraph;
pub mod skim;
pub mod timepicker;
pub mod todo;
