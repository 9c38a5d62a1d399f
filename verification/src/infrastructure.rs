//! Wiring of the service: its configuration and its password hasher.
pub mod config;

use vstd::prelude::*;
use crate::adapters::crypto::argon2_hasher::ArgonPasswordHasher;

verus! {

/// The password hasher the service uses.
pub fn argon2_password_hasher() -> ArgonPasswordHasher {
    ArgonPasswordHasher::default()
}

} // verus!
