//! Reports the played games of an owned library that are currently on discount.
//!
//! The library holds the logic: which games count as played, the requests made
//! to the ownership and price services, how a price response entry resolves to a
//! price overview, and the rows of the report.
pub mod decimal;
pub mod json;
pub mod library;
pub mod price;
pub mod report;
