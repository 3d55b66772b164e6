//! Trust bootstrap for a key-broker service, and verification of the
//! attestation reports that its clients present.
//!
//! At startup the service makes sure of its key material: the key pair that
//! authenticates administrators, the key pair and the self-signed
//! certificate that serve HTTPS, and a policy file. What is there is taken
//! as it is and never overwritten; what is missing is made. Later, and
//! independently, the service verifies attestation reports against
//! certificates.
//!
//! The parts, leaves first:
//!
//! - [`keys`] generates key pairs, and [`key_store`] provisions them;
//! - [`cert`] issues the certificate, and [`cert_store`] provisions it;
//! - [`report`] lays out attestation reports, and [`attestation`] verifies
//!   them;
//! - [`bootstrap`] puts the provisions in sequence.
//!
//! The library touches neither disk nor network. A provision is a small
//! state machine that asks for one thing at a time ([`protocol`]); whoever
//! drives it carries the request out and hands back the reply. [`memory`]
//! holds a trust store in memory, which answers such requests, and
//! [`provision`] and [`startup`] run provisions and the whole sequence on it.
//! The rules of the trust store are stated and proved against that store.
//!
//! Keys and certificates come from OpenSSL. [`ossl`] holds the calls that
//! make them, of which nothing is assumed; [`decode`] holds the calls that
//! read them, which are trusted to read what is encoded. Whatever the
//! library promises of a key or certificate that it hands out, it has read
//! out of the encoded result.

pub mod aliases;
pub mod attestation;
pub mod bootstrap;
mod bytes;
pub mod cert;
pub mod cert_store;
pub mod decode;
pub mod driver;
pub mod error;
pub mod key_store;
pub mod keys;
pub mod layout;
pub mod memory;
pub mod ossl;
pub mod plugins;
pub mod protocol;
pub mod provision;
pub mod report;
pub mod startup;
