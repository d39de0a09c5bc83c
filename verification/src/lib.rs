//! The state of one chat session held in memory: a log of messages that is
//! only ever appended to, a roster of aliases with the alias in use, and the
//! pin that decides whether the view follows the newest message.
//!
//! Every operation is an executable function whose contract is stated over
//! the views in this crate, and the laws that relate the operations are
//! proved in `laws`.

pub mod text;
pub mod error;
pub mod roster;
pub mod message;
pub mod scroll;
pub mod session;
pub mod event;
pub mod laws;
