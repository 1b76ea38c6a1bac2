//! What the remote service that serves transaction records is asked for,
//! and what its answers amount to.
pub mod api_error;
pub mod client;
pub mod transaction;
