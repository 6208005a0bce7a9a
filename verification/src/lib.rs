//! Decision logic of a Bitcoin transaction relay that federates over a Nostr
//! bus: validation of submitted transactions, echo suppression between the
//! mempool poller and the Nostr ingress, and the gateway's connection states.
//!
//! Nothing here does I/O. The caller polls the node, talks to the Nostr
//! relay and keeps the clock; it hands what it got to these functions and
//! performs what they decide.

pub mod decimal;
pub mod engine;
pub mod envelope;
pub mod gateway;
pub mod hexcode;
pub mod ingress;
pub mod origin;
pub mod poller;
pub mod recent;
pub mod rpc;
pub mod text;
pub mod txdecode;
pub mod validation;
