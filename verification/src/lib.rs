//! A minimal counter program core: an instruction codec that owns the wire
//! format, and a state-transition handler that creates and increments a
//! persisted 8-byte counter record, verified end to end over a model of the
//! host's accounts.

pub mod account;
pub mod codec;
pub mod processor;
