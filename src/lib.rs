//! Creation of a program-derived "vault" account: the request is decoded, the
//! participants' roles are checked, the rent-exempt funding is computed, and
//! the creation is described so that the program can sign for the new account
//! with the vault's derivation seeds.
pub mod address;
pub mod error;
pub mod instruction;
pub mod processor;
pub mod rent;
pub mod roles;
pub mod system;
