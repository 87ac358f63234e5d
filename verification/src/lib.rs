//! Accounting and risk-control core of a collateral-backed synthetic-dollar
//! protocol: users deposit the chain's native asset as collateral and mint a
//! USD-pegged token against it. This crate holds the economic engine — price
//! normalization, unit conversion, the health-factor risk metric, and the
//! three state transitions (deposit-and-mint, withdraw-and-burn, liquidate) —
//! with machine-checked contracts. Account storage, token mint/burn authority
//! and the oracle client are collaborators around the engine, not part of it.
pub mod convert;
pub mod error;
pub mod ops;
pub mod price;
pub mod risk;
pub mod state;
