//! Typed model of the `[Interface]` section of a WireGuard configuration file.

pub mod address;
pub mod error;
pub mod key;
pub mod port;
pub mod raw;
pub mod text;
pub mod wg_interface;

pub use address::Cidr;
pub use address::WgAddress;
pub use error::WgConfError;
pub use key::WgPrivateKey;
pub use raw::RawKeyValues;
pub use wg_interface::WgInterface;
