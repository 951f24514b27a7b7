//! Slot-synchronised generator of consensus duty messages.
//!
//! Once per slot boundary the generator takes the duties that were resolved
//! for the slot that is current at that moment, turns them into messages in a
//! fixed order of kinds, and hands the messages out one at a time.
//!
//! The crate does no I/O and keeps no clock. Its surroundings own the deadline
//! timer, the time source and the duty resolver; they report what these say as
//! an [`Event`] and carry out the [`Action`] that [`Generator::poll_next`]
//! answers with.

pub mod builder;
pub mod generator;
pub mod message;
pub mod schedule;
pub mod slot_generator;
pub mod trace;

pub use crate::generator::{Action, Config, Error, Event, Generator, GeneratorView, Nanos};
pub use crate::message::{Message, MsgType, Slot};
