//! The payroll API.

pub mod contractors;
