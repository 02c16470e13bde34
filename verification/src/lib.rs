//! A key broker client: given the annotation that travels with an encrypted
//! artifact, it selects the trust module that can decrypt it and runs that
//! module's protocol with its key broker service.
//!
//! The registry ([`kbc_manager`]) maps module names to trust modules and
//! dispatches requests; [`key_provider`] is the request layer in front of it.
//! Two modules come with the library: [`sample_kbc`], which decrypts locally
//! with a fixed key, and [`eaa_kbc`], which asks a key broker service over an
//! attested channel. The latter is a state machine that leaves the channel
//! to its caller; [`exchange`] holds the meaning of each message it
//! exchanges and [`runs`] what holds of whole operations.
//!
//! Beneath them, [`protocol`] defines the messages, [`fields`] and [`json`]
//! read and write JSON documents, [`encoding`] handles base64 and UTF-8, and
//! [`entries`] reads lists of named entries as maps. [`address`] reads the
//! address to serve on from the command line.

pub mod address;
pub mod eaa_kbc;
pub mod encoding;
pub mod entries;
pub mod error;
pub mod exchange;
pub mod fields;
pub mod json;
pub mod kbc_manager;
pub mod key_provider;
pub mod protocol;
pub mod runs;
pub mod sample_kbc;
