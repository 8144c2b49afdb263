//! Progressive income-tax tables: a formula language, bracket tables built
//! and checked from published rows, and the rounding/splitting policies that
//! decide how a table is consulted. Numbers are exact decimals; the
//! floating-point arithmetic of consulting a table is left to the caller.

pub mod decimal;
pub mod examples;
pub mod formula;
pub mod load;
pub mod schema;
pub mod table;
pub mod text;
