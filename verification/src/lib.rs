//! Classic creational design-pattern examples, with verified behaviour.
//!
//! Two independent demos:
//! - `abstract_factory`: device families (Samsung, Philips) producing
//!   family-consistent light bulbs and fans that share a vendor configuration.
//! - `factory_method`: document readers (CSV, JSON) returning a single
//!   normalized record.

pub mod abstract_factory;
pub mod factory_method;
