//! A multi-hop swap router: a compact wire format describing a chain of
//! exchange hops, an executor that delegates each hop to an external exchange
//! engine, and a single end-to-end minimum-output (slippage) guarantee that is
//! checked after the last hop.

pub mod chain;
pub mod error;
pub mod instruction;
pub mod processor;
pub mod state;
