//! A capability-token state machine that gates every change to a turn-based
//! game world: the legal operations at any moment are exactly those of the
//! token the caller holds, and each operation consumes its token and returns
//! the next one.

pub mod engine;
pub mod player;
pub mod protocol;
pub mod witness;
