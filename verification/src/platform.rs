//! What the interface decides about its host: data URLs, images, keys, addresses.
pub mod base64;
pub mod page;
pub mod shape;
