use vstd::prelude::*;

verus! {

/// The credentials a client presents: who it is, how it authenticates
/// (`totp` or `pgp`) and the secret for that method.
pub struct UserAuthentication {
    pub identifier: String,
    pub method: String,
    pub secret: String,
}

} // verus!
