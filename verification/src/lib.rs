//! Transaction-fee estimation for a base chain and a layer-2 chain that
//! settles onto it, in exact integer arithmetic.
//!
//! Every amount is a whole number of the smallest unit that the library
//! knows: gas prices and fees in wei (10^-18 of a chain's native coin, so
//! that one Gwei is 10^9 wei), asset prices in millionths of a US dollar,
//! and dollar values in units of 10^-24 dollars, the product of the two.
//! No amount is ever rounded but where it is turned into text.

pub mod chain;
pub mod decimal;
pub mod engine;
pub mod fee;
pub mod price;
mod random;
pub mod report;
pub mod simulation;
