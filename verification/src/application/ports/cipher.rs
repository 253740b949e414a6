use vstd::prelude::*;

verus! {

#[derive(Clone, Debug)]
pub enum CipherError {
    EncryptionError(String),
    DecryptionError(String),
}

/// What a secret is encrypted for.
#[derive(Clone, Copy, Debug, PartialEq, Eq, Structural)]
pub enum CryptoContext {
    DeploymentArgumentSecret,
}

} // verus!
