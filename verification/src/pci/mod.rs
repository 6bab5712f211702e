//! PCI: configuration space, enumeration and search.

pub mod bus;
pub mod config;
pub mod enumeration;
pub mod reach;
pub mod scan;
