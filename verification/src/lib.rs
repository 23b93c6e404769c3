//! Verified core of the ZeroTier service's secret handling and certificate
//! command logic.

pub mod secret;
pub mod text;
pub mod codec;
pub mod csr;
pub mod cert_text;
pub mod command;
