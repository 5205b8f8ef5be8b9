//! AES-128 block encryption and decryption with a verified key schedule,
//! S-box and round functions.

pub mod gf;
pub mod spec;
pub mod cipher_spec;
pub mod crypto;
pub mod key_gen;

