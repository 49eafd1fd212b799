//! A contract-testing toolkit for an EVM-compatible ecosystem: an ABI codec
//! (selector hashing and fixed-width parameter encoding), a compiler
//! orchestration layer that drives the Solidity, Vyper and Huff compilers
//! through one interface and one error taxonomy, and an execution frontend
//! that models the transaction lifecycle over a simulated ledger.

pub mod abi;
pub mod builder;
pub mod constants;
pub mod hexbytes;
pub mod huff;
pub mod json;
pub mod solidity;
pub mod vyper;
pub mod provider;

use vstd::prelude::*;

verus! {

} // verus!
