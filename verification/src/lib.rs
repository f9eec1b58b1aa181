//! Checkout-time validation of per-product quantity limits.
//!
//! A merchant configures, per product variant, the largest quantity that one
//! cart may hold. Given that configuration and a snapshot of the cart,
//! [`validator::run`] produces the validation errors to show at checkout, one
//! for each cart line that exceeds its limit, in cart order.

pub mod cart;
pub mod configuration;
pub mod decimal;
pub mod outcome;
pub mod validator;

pub use cart::{Cart, CartLine, Merchandise, ProductVariant};
pub use configuration::Configuration;
pub use outcome::{Operation, ValidationError, ValidationResult};
pub use validator::{check_line, collect_violations, format_limit_message, run};
