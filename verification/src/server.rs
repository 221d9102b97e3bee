//! Server configuration data.  The connection layer itself - sockets, the
//! optional TLS handshake, and the HTTP/1.1 or HTTP/2 wire protocol - lives
//! with the embedding application; this module holds the plain configuration
//! values it is built from.

use vstd::prelude::*;

verus! {

/// The encoding of the TLS key material on disk.
pub enum SslFiletype {
    PEM,
    ASN1,
}

} // verus!
