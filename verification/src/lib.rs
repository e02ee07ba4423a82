//! Construction and assembly of confidential transactions, and the
//! decisions of the services around them.
//!
//! A [`TransactionBuilder`](transaction_builder::TransactionBuilder) gathers
//! inputs, outputs, a fee and a tombstone block, consults a memo policy and
//! a fog public key resolver, and at the end produces the canonical
//! transaction prefix together with everything the ring signature needs.
//!
//! The library decides; its caller hashes, encrypts and signs. Arithmetic
//! on the Ristretto group is curve25519-dalek's, URLs are parsed by the url
//! crate, and hexadecimal is written by the hex crate; what the library
//! takes on trust of them is said where it calls them, in
//! [`ristretto`], [`uri`] and [`hex_text`].

pub mod address;
pub mod amount;
pub mod block_version;
pub mod burn_redemption;
pub mod bytes;
pub mod commitment;
pub mod conservation;
pub mod database;
pub mod decimal;
pub mod error;
pub mod fee_map;
pub mod hex_text;
pub mod input_materials;
pub mod key_image;
pub mod keys;
pub mod memo;
pub mod memo_payloads;
pub mod mint;
pub mod onetime_keys;
pub mod ordering;
pub mod output;
pub mod overseer;
pub mod ristretto;
pub mod rpc;
pub mod rth_memo_builder;
pub mod server_cert_reloader;
pub mod tombstone;
pub mod transaction_builder;
pub mod tx;
pub mod unsigned_tx;
pub mod uri;
pub mod validation;
pub mod x64;
