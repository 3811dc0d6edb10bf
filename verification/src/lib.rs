//! Control plane for exchanging a file over Tor: the rendezvous address, the
//! state machines of a transfer and of a share, and the text they read and
//! write.
//!
//! Nothing here touches the network, the disk or the terminal. A driver
//! around the library does, and tells the state machines what happened.

pub mod connector;
pub mod decimal;
pub mod disposition;
pub mod download_file;
pub mod progress;
pub mod random;
pub mod share;
pub mod status;
pub mod text;
pub mod tor_share_url;
pub mod tor_utils;
pub mod transfer_runs;
