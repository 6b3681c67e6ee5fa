//! A verified core for a smart-card serial-number reader.
//!
//! The library holds the request logic of a service that reads the serial
//! number off a contactless card presented to a PC/SC reader: reader
//! selection, card-presence polling, the single APDU exchange, hexadecimal
//! rendering, and the mapping of every outcome to an HTTP status and body.
//! The driver calls themselves (context establishment, enumeration, the
//! blocking status query, connect, transmit) are outside work: a host program
//! performs them and feeds each result back as an event, while the state
//! machine in [`machine`] makes every decision.

pub mod endpoint;
pub mod error;
pub mod hex;
pub mod machine;
pub mod session;
