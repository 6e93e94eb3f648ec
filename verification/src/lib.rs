//! Verified core of the Wybe battle-royale and token programs.
//!
//! Every operation is a synchronous function over records that the caller has
//! already loaded. It either returns the event describing what happened and
//! leaves the records in their next state, or returns a typed error and leaves
//! every record exactly as it was.

pub mod address;
pub mod battle;
pub mod token;
