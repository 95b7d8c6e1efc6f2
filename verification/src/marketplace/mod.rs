//! The points marketplace: a product catalogue and purchases paid in tokens.

pub mod errors;
pub mod state;
pub mod initialize;
pub mod product_management;
pub mod purchase;
pub mod invariants;
