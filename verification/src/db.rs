//! What a client keeps in its own database.

use vstd::prelude::*;

verus! {

/// The first byte of a key, which tells what the key is for.
#[derive(Debug, Clone, Copy, PartialEq, Eq, Structural, Hash)]
pub enum DbKeyPrefix {
    Nonce,
}

impl DbKeyPrefix {
    pub fn as_byte(&self) -> (byte: u8)
        ensures
            match self {
                DbKeyPrefix::Nonce => byte == 0x01,
            },
    {
        match self {
            DbKeyPrefix::Nonce => 0x01,
        }
    }
}

/// The key of the client's nonce, which is a `u64`.
#[derive(Debug, Clone, Copy, PartialEq, Eq, Structural, Hash)]
pub struct NonceKey;

impl NonceKey {
    pub fn db_prefix(&self) -> (prefix: DbKeyPrefix)
        ensures
            prefix == DbKeyPrefix::Nonce,
    {
        DbKeyPrefix::Nonce
    }
}

} // verus!
