//! Client-side payment logic for a credit-network node.
//!
//! The library models routes through the network, selects a feasible route
//! for a payment (first fit over the candidates offered by the routing
//! oracle), and drives the request/acknowledge handshake of one funds
//! transfer as an explicit state machine. All network traffic is performed
//! by the surrounding application, which feeds the outcome of each call
//! back into the state machine as an event.

pub mod env_vars;
pub mod funds;
pub mod invoice;
pub mod keys;
pub mod route;
pub mod uid;
