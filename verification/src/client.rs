//! Descriptions of the mutable data a client reads and writes.

use crate::resp::XOR_NAME_LEN;
use crate::sodium::{KEYBYTES, NONCEBYTES};
use vstd::prelude::*;

verus! {

/// Where a piece of mutable data lives and how its entries are encrypted.
#[derive(Clone, PartialEq, Eq)]
pub struct MDataInfo {
    /// Name (network address) of the data.
    pub name: [u8; XOR_NAME_LEN],
    /// Type tag of the data.
    pub type_tag: u64,
    /// Symmetric key of the entries, with the nonce used for their keys, if
    /// the entries are encrypted.
    pub enc_info: Option<([u8; KEYBYTES], Option<[u8; NONCEBYTES]>)>,
}

} // verus!
