//! Client-side encoder for the FinTS/HBCI online-banking wire protocol.
//!
//! The crate renders statically typed message trees
//! (message -> segment -> data element group -> data element) into the
//! delimited, escaped text form the protocol requires, assembles the
//! synchronize / initialize handshake messages, and tracks the per-dialog
//! sequencing state.

pub mod client;
pub mod data_types;
pub mod dialog;
pub mod escape;
pub mod messages;
pub mod numbers;
pub mod se;
pub mod segments;
pub mod sizing;
pub mod wire;

pub use crate::client::PinTanClient;
pub use crate::dialog::Dialog;
pub use crate::messages::{Message, Msg_DialogInit, Msg_DialogSync};
