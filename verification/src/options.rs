//! What a caller asks for: where the artifacts go, in which encoding, and for
//! which names the certificate is issued.

use vstd::prelude::*;

use crate::encoding::Encoding;

verus! {

/// Where the two halves of the key pair are written.
#[derive(Debug)]
pub struct KeyPairOptions {
    /// Path of the private key file.
    pub private_key: String,
    /// Path of the public key file.
    pub public_key: String,
}

/// One request for credentials.
#[derive(Debug)]
pub struct Options {
    /// Path of the certificate file.
    pub certificate: String,
    /// The encoding of the certificate and of both keys.
    pub encoding: Encoding,
    /// Paths of the key files.
    pub key_pair: KeyPairOptions,
    /// The names the certificate is issued for, in order. May be empty.
    pub subject_alt_names: Vec<String>,
}

} // verus!
