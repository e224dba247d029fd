//! Authentication responses exchanged between an authenticator and the apps
//! it grants access to, the C-facing representation of those responses, the
//! files kept by the network file system, and the client's error type.

pub mod client;
pub mod errors;
pub mod ffi;
pub mod ipc;
pub mod nfs;
pub mod resp;
pub mod sodium;
