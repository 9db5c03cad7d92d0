//! Verified core of a colour-temperature daemon: which rows of the
//! white-point table a temperature blends, which temperature the polar
//! cases and a reset ask for, and when the daemon re-applies a reading.

pub mod daemon;
pub mod table;
pub mod temperature;
pub mod whitepoint;
