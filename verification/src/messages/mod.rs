//! The messages that the radio sends.

pub mod upgrade;
