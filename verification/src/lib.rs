//! The decisions of two datasources of Solana updates, verified.
//!
//! The Yellowstone side turns the messages of a gRPC stream into updates ([`proto`],
//! [`convert_from`], [`v1`], [`delivery`]), follows the life of the stream ([`stream`],
//! [`arrivals`], [`output`]) and holds its settings and labels ([`client`], [`labels`]). The
//! Jetstreamer side filters transactions and lets them wait for their blocks ([`jetstreamer`],
//! [`pending`], [`stats`]). Both hand on the types of [`updates`] and [`chain`].
pub mod arrivals;
pub mod chain;
pub mod client;
pub mod convert_from;
pub mod delivery;
pub mod error;
pub mod jetstreamer;
pub mod keys;
pub mod labels;
pub mod laws;
pub mod output;
pub mod pending;
pub mod proto;
pub mod stats;
pub mod stream;
pub mod text;
pub mod updates;
pub mod v1;
