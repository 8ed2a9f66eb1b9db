//! # tinyudp
//! A tiny abstraction for UDP: the options and error taxonomy of a datagram
//! exchange, and the verified decisions that drive one.

pub mod error;
pub mod exchange;
pub mod options;

pub use error::Error;
pub use exchange::{Action, Event, Exchange, Outcome, Phase};
pub use options::ReadOptions;
