//! The capabilities that tasks draw on: the clock and the calendar, timers,
//! number theory, the system probe, and the shape of an HTTP response.
pub mod nowtime;
pub mod rmath;
pub mod rnet;
pub mod sysez;
pub mod timeru;
