//! Connection lifecycle and configuration push for a single low-power radio
//! LED controller: the decisions of the connectivity monitor and of the
//! configuration writer, stated and proved; the radio I/O stays with the host.

pub mod monitor;
pub mod target;
pub mod writer;
