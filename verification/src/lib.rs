//! Verified core of a tool that registers a Signal account without a
//! smartphone and links Signal Desktop to it.
//!
//! The library holds the logic: the protobuf wire encoding of the messages
//! that travel to Signal Desktop, the provisioning cipher framing, the
//! parsing of device-linking URIs, the request/response decisions of the
//! registration and linking flows, the bookkeeping of saved accounts, the
//! Signal Desktop profile naming, the offline demo backend and the setup
//! wizard's state machine. Network, disk and keyring access stay outside.

pub mod crypto;
pub mod demo;
pub mod desktop;
pub mod http;
pub mod link;
pub mod pem;
pub mod persistence;
pub mod proto;
pub mod qr;
pub mod register;
pub mod relays;
pub mod signal_cli;
pub mod text;
pub mod types;
pub mod username;
pub mod uri;
pub mod wizard;
