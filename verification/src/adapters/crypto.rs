pub mod argon2_hasher;
