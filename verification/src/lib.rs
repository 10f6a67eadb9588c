//! A typed handle on the Aleo Beacon API: a transport, a base URL that is known
//! to carry an accepted scheme, and the identifier of the network it talks to.

pub mod client;
pub mod error;
pub mod laws;
pub mod scheme;
pub mod transport;

pub use client::AleoAPIClient;
pub use error::ValidationError;
pub use transport::Transport;
