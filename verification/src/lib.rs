pub mod address;
pub mod addresses;
pub mod base58check;
pub mod derivation;
pub mod error;
pub mod extended_key;
pub mod mnemonic;
pub mod retag;
pub mod version;
