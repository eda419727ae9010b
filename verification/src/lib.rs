//! Gas price escalation for transactions that are submitted again.
//!
//! When a transaction has not been mined in time, it is sent again with a
//! higher gas price. [`escalator`] computes that price from the price of the
//! earlier attempt and a newly estimated one; [`lemmas`] states what holds of
//! it for every input. [`price`] is the gas price of a transaction, [`u256`]
//! the integer it is made of, and [`overrides`] the settings that a
//! destination may override.

pub mod escalator;
pub mod lemmas;
pub mod overrides;
pub mod price;
pub mod u256;
