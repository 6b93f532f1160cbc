//! Archives a paginated XML listening-history feed into rows for a local
//! relational store: parsing and validating each page, walking pages in
//! order, and mapping each track onto one row.

pub mod errors;
pub mod model;
pub mod numbers;
pub mod parser;
pub mod paginate;
pub mod progress;
pub mod text;
pub mod url;
pub mod xml;
