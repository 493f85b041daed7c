//! Client side of an asymmetric password-authenticated key exchange, driven
//! through text-safe blobs and caller-owned output slots.

pub mod status;
pub mod encoding;
pub mod slot;
pub mod flow;
pub mod instance;
pub mod suite;
