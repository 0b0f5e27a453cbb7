//! What a backend connector needs from the library: reading a driver's
//! values into the library's own, laying out a statement's parameters, and
//! the settings of a connection.

pub mod calendar;
pub mod mysql;
pub mod settings;
