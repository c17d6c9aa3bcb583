use vstd::prelude::*;

verus! {

/// Length in bytes of the tag that marks the type of a stored record.
pub const DISCRIMINATOR_LEN: usize = 8;

/// Length in bytes of an identity.
pub const PUBKEY_LEN: usize = 32;

/// Length in bytes of a stored 64-bit integer.
pub const U64_LEN: usize = 8;

/// Length in bytes of a stored byte.
pub const U8_LEN: usize = 1;

/// Namespace tag of configuration records: the ASCII bytes of `config`. It is
/// the first seed of every record address.
pub const CONFIG_SEED: [u8; 6] = [99, 111, 110, 102, 105, 103];

} // verus!
