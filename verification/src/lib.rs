//! Confidential, append-only chains of file references. A source seals each
//! reference in a signed record under a fresh key that is derived from a
//! Diffie-Hellman value against a master key; the master secret is held in
//! shares, and a quorum of shareholders recovers the value from which a chain
//! is unsealed, from its last record back to its first. Files are sealed
//! under the keys that the records hold.

pub mod bytes;
pub mod cipher;
pub mod encoding;
pub mod error;
pub mod field;
pub mod files;
pub mod hash;
pub mod keys;
pub mod lagrange;
pub mod modular;
pub mod payload;
pub mod point;
pub mod polynomial;
pub mod primality;
pub mod primes;
pub mod records;
pub mod scalar;
pub mod secret;
pub mod shares;
pub mod signatures;
