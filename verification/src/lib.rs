//! Verified core of the Arc node helpers: the SLH-DSA signature precompile,
//! the precompile resolution of the Arc provider, and the transaction
//! generator's bookkeeping (round-robin accounts, nonce cache, weighted
//! transaction mix).

pub mod abi;
pub mod config;
pub mod gas;
pub mod generator;
pub mod nonce;
pub mod pq;
pub mod provider;
pub mod random;
pub mod tx;
pub mod slh;
