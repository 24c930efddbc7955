//! One module per supported country.

pub mod albania;
pub mod kosovo;
