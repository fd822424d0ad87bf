//! A single-owner registry that labels accounts with risk categories.

pub mod account;
pub mod category;
pub mod registry;

pub use account::AccountId;
pub use category::{decode, from_discriminant, Category, DecodeError, CATEGORY_COUNT};
pub use registry::{authorize, Hapi, Registry, RegistryError, StorageKey};
