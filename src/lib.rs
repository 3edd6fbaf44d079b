//! A container that stores values under opaque, randomly generated keys.

pub mod key;
pub mod laws;
pub mod vault;

pub use key::VaultKey;
pub use vault::Vault;
