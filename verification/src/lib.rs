//! Identity, configuration and inbound-datagram rules for the FaceTime IDS
//! logical datagram channel.
//!
//! The IDS client channel is a logical channel carried by a relay parent and
//! later possibly by a peer-to-peer parent; this library holds the parts of it
//! that decide: the account identifier, the identity and configuration that a
//! connection is assembled from, the decoding of participant data, and the
//! ordered hand-off of inbound datagrams to the SKE receiver.

pub mod decimal;
pub mod text;
pub mod error;
pub mod identity;
pub mod bundle;
pub mod transport;
