//! The scanners and the decorator registry.
pub mod decorator;
pub mod hyros;
pub mod rustnetx;
