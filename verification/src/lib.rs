//! Trust bootstrap for an attested enclave service.
//!
//! Before the service exchanges any data with a peer, it must (a) hold a
//! signed trust manifest mapping peer role names to expected integrity
//! measurements, (b) narrow that manifest to a fixed allow-list of inbound
//! roles, (c) bind its own attested transport identity into server- and
//! client-side endpoint configurations that enforce the derived peer-trust
//! policy on every handshake, and (d) drive all of this through a strict
//! lifecycle (initialize, start, finalize) commanded by the hosting process.
//!
//! The cryptographic collaborators (manifest signature checking, quote
//! verification, the TLS handshake itself) live outside this crate; their
//! verdicts enter as plain values, and every decision taken on those verdicts
//! is specified and verified here.

pub mod channel;
pub mod identity;
pub mod lifecycle;
pub mod manifest;
pub mod policy;
