use vstd::prelude::*;

verus! {

/// An encrypted credentials blob: the ciphertext bytes as the encryption
/// collaborator produced them. Encryption and decryption happen outside this
/// library; the account record only stores the opaque payload, and an update
/// that carries no new blob must leave the stored one untouched.
#[derive(Clone, PartialEq, Eq)]
pub struct Encryption {
    pub ciphertext: Vec<u8>,
}

} // verus!
