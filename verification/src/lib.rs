//! An exact decimal number type that never holds NaN or an infinity.
//!
//! [`Decimal`] stores an IEEE 754-2008 decimal128 bit pattern and hands all
//! arithmetic to the `decimal` crate. What this crate adds, and proves, is the
//! discipline around that arithmetic: every constructor rejects non-finite
//! values, every operation states which bit pattern it returns, and operations
//! whose result can leave the finite range say so in their contracts.
pub mod error;
pub mod primitive;
pub mod pure_decimal;
pub mod inbound;

pub use error::Error;
pub use inbound::Inbound;
pub use pure_decimal::Decimal;
