//! Request routing and compatibility checking for a wallet's Owner and
//! Foreign JSON-RPC listeners.
pub mod error;
pub mod gate;
pub mod handlers;
pub mod json;
pub mod listener;
pub mod response;
pub mod router;
pub mod rpc;
