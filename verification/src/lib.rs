//! Encoding adaptors with a human-readable and a compact form, and the
//! decisions of a multi-transport RPC server builder.

pub mod adaptor;
pub mod address;
pub mod base64;
pub mod bitmap;
pub mod codec;
pub mod convert;
pub mod crypto;
pub mod hex;
pub mod object_id;
pub mod server;
pub mod text;
pub mod wire;
