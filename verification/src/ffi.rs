//! The C-facing representation of the authentication response: fixed-size
//! byte arrays and integers only.

use crate::resp::XOR_NAME_LEN;
use crate::sodium::{
    BOX_PUBLIC_KEY_BYTES, BOX_SECRET_KEY_BYTES, KEYBYTES, NONCEBYTES, SIGN_PUBLIC_KEY_BYTES,
    SIGN_SECRET_KEY_BYTES,
};
use vstd::prelude::*;

verus! {

/// The keys an app works with, as raw bytes.
#[derive(Clone, Copy, PartialEq, Eq)]
pub struct AppKeys {
    /// Owner signing public key.
    pub owner_key: [u8; SIGN_PUBLIC_KEY_BYTES],
    /// Data symmetric encryption key.
    pub enc_key: [u8; KEYBYTES],
    /// Asymmetric sign public key.
    pub sign_pk: [u8; SIGN_PUBLIC_KEY_BYTES],
    /// Asymmetric sign private key.
    pub sign_sk: [u8; SIGN_SECRET_KEY_BYTES],
    /// Asymmetric enc public key.
    pub enc_pk: [u8; BOX_PUBLIC_KEY_BYTES],
    /// Asymmetric enc private key.
    pub enc_sk: [u8; BOX_SECRET_KEY_BYTES],
}

/// The access container, as raw bytes.
#[derive(Clone, Copy, Debug, PartialEq, Eq)]
pub struct AccessContInfo {
    /// ID.
    pub id: [u8; XOR_NAME_LEN],
    /// Type tag.
    pub tag: u64,
    /// Nonce.
    pub nonce: [u8; NONCEBYTES],
}

/// The authentication response, as raw bytes.
#[derive(Clone, Copy, PartialEq, Eq)]
pub struct AuthGranted {
    /// The access keys.
    pub app_keys: AppKeys,
    /// Access container.
    pub access_container: AccessContInfo,
}

} // verus!
