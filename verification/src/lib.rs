pub mod cbor;
pub mod cose;
pub mod crypto;
pub mod error;
pub mod init;
pub mod kdf;
pub mod keyblob;
pub mod keymint;
pub mod startup;
