//! The program's account states.

pub mod bus;

pub use bus::Bus;
