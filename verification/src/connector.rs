//! Telling apart the ways a request through the local proxy can fail.
//!
//! The transport reports a failure as text. A failure that says the proxy
//! could not be reached means that the overlay process is still starting; one
//! that says the host could not be reached means that the sharing side is
//! not online yet. Both are worth another attempt. Anything else is not.

use crate::text::{chars_of, contains, contains_text};
use vstd::prelude::*;

verus! {

/// The pause between two attempts, in milliseconds.
pub const RETRY_DELAY_MS: u64 = 50;

/// Why a request got no response.
#[derive(Debug, Clone, PartialEq, Eq)]
pub enum Refusal {
    /// The local proxy does not accept connections yet.
    ProxyNotReady,
    /// The proxy is up and the remote peer did not answer.
    PeerUnreachable,
    /// A failure that another attempt would not mend, with its cause.
    TerminalError(String),
}

/// What a failure of the proxy says of itself.
pub open spec fn proxy_marker() -> Seq<char> {
    "Proxy server unreachable"@
}

/// What a failure of the remote peer says of itself.
pub open spec fn peer_marker() -> Seq<char> {
    "Host unreachable"@
}

/// The kind of failure a message reports. The proxy's marker is looked for
/// first.
pub open spec fn classification(message: String) -> Refusal {
    if contains_text(message@, proxy_marker()) {
        Refusal::ProxyNotReady
    } else if contains_text(message@, peer_marker()) {
        Refusal::PeerUnreachable
    } else {
        Refusal::TerminalError(message)
    }
}

/// Classifies the failure that `message` reports.
pub fn classify(message: String) -> (r: Refusal)
    ensures
        r == classification(message),
{
    let text = chars_of(message.as_str());
    let proxy = chars_of("Proxy server unreachable");
    let peer = chars_of("Host unreachable");
    if contains(text.as_slice(), proxy.as_slice()) {
        Refusal::ProxyNotReady
    } else if contains(text.as_slice(), peer.as_slice()) {
        Refusal::PeerUnreachable
    } else {
        Refusal::TerminalError(message)
    }
}

} // verus!
