//! A proof-of-existence registry: actors register byte-string claims, and may
//! later revoke them or hand them over to another actor.
//!
//! The registry is a state machine over a map from claim to ownership record.
//! [`Pallet`] holds that map and carries out the three operations on it;
//! [`transition`] decides each operation for a single claim, for hosts that keep
//! the records themselves. [`laws`] states what holds of one operation on every
//! state, and [`history`] what holds after any number of them.

pub mod account;
pub mod error;
pub mod event;
pub mod history;
pub mod laws;
pub mod order;
pub mod pallet;
pub mod record;
pub mod registry;
pub mod transition;

pub use crate::account::AccountId;
pub use crate::error::Error;
pub use crate::event::Event;
pub use crate::pallet::{Config, Pallet};
pub use crate::record::OwnershipRecord;
pub use crate::registry::Registry;
