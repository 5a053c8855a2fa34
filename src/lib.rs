//! Translation between the OpenSSL spelling of a cipher suite name and its RFC
//! identifier, for TLS suites and for SSLv2 suites.
//!
//! Each protocol era has its own closed enumeration ([`TLSCipherSuite`],
//! [`SSLV2CipherSuite`]) with the same operations: the OpenSSL spelling and the RFC
//! identifier of a suite, lookup of a suite by either name (exact, case-sensitive
//! match; `None` when nothing matches), and the list of all suites in declaration
//! order. Both names are proved unique within an era, so each lookup inverts the
//! matching name exactly.

use vstd::prelude::*;

pub mod ssl2;
pub mod text;
pub mod tls;

pub use ssl2::SSLV2CipherSuite;
pub use tls::TLSCipherSuite;

verus! {

} // verus!
