use vstd::prelude::*;

use crate::text::same_text;

verus! {

/// Number of TLS cipher suites that [`TLSCipherSuite`] lists.
pub const TLS_SUITE_COUNT: usize = 278;

/// A TLS cipher suite, named by its RFC identifier.
///
/// The identifiers keep their registered spelling, lower-case `anon` included. The
/// three draft ChaCha20-Poly1305 suites carry an `OLD_` prefix and their own OpenSSL
/// spellings (ending in `-OLD`), apart from the final ones. TLS 1.3 suites are
/// spelled the same way in both conventions.
#[allow(non_camel_case_types)]
#[derive(PartialEq, Eq, Structural, Debug, Clone, Copy)]
pub enum TLSCipherSuite {
    TLS_RSA_WITH_NULL_MD5,
    TLS_RSA_WITH_NULL_SHA,
    TLS_RSA_EXPORT_WITH_RC4_40_MD5,
    TLS_RSA_WITH_RC4_128_MD5,
    TLS_RSA_WITH_RC4_128_SHA,
    TLS_RSA_EXPORT_WITH_RC2_CBC_40_MD5,
    TLS_RSA_WITH_IDEA_CBC_SHA,
    TLS_RSA_EXPORT_WITH_DES40_CBC_SHA,
    TLS_RSA_WITH_DES_CBC_SHA,
    TLS_RSA_WITH_3DES_EDE_CBC_SHA,
    TLS_DH_DSS_EXPORT_WITH_DES40_CBC_SHA,
    TLS_DH_DSS_WITH_DES_CBC_SHA,
    TLS_DH_DSS_WITH_3DES_EDE_CBC_SHA,
    TLS_DH_RSA_EXPORT_WITH_DES40_CBC_SHA,
    TLS_DH_RSA_WITH_DES_CBC_SHA,
    TLS_DH_RSA_WITH_3DES_EDE_CBC_SHA,
    TLS_DHE_DSS_EXPORT_WITH_DES40_CBC_SHA,
    TLS_DHE_DSS_WITH_DES_CBC_SHA,
    TLS_DHE_DSS_WITH_3DES_EDE_CBC_SHA,
    TLS_DHE_RSA_EXPORT_WITH_DES40_CBC_SHA,
    TLS_DHE_RSA_WITH_DES_CBC_SHA,
    TLS_DHE_RSA_WITH_3DES_EDE_CBC_SHA,
    TLS_DH_anon_EXPORT_WITH_RC4_40_MD5,
    TLS_DH_anon_WITH_RC4_128_MD5,
    TLS_DH_anon_EXPORT_WITH_DES40_CBC_SHA,
    TLS_DH_anon_WITH_DES_CBC_SHA,
    TLS_DH_anon_WITH_3DES_EDE_CBC_SHA,
    TLS_KRB5_WITH_DES_CBC_SHA,
    TLS_KRB5_WITH_3DES_EDE_CBC_SHA,
    TLS_KRB5_WITH_RC4_128_SHA,
    TLS_KRB5_WITH_IDEA_CBC_SHA,
    TLS_KRB5_WITH_DES_CBC_MD5,
    TLS_KRB5_WITH_3DES_EDE_CBC_MD5,
    TLS_KRB5_WITH_RC4_128_MD5,
    TLS_KRB5_WITH_IDEA_CBC_MD5,
    TLS_KRB5_EXPORT_WITH_DES_CBC_40_SHA,
    TLS_KRB5_EXPORT_WITH_RC2_CBC_40_SHA,
    TLS_KRB5_EXPORT_WITH_RC4_40_SHA,
    TLS_KRB5_EXPORT_WITH_DES_CBC_40_MD5,
    TLS_KRB5_EXPORT_WITH_RC2_CBC_40_MD5,
    TLS_KRB5_EXPORT_WITH_RC4_40_MD5,
    TLS_PSK_WITH_NULL_SHA,
    TLS_DHE_PSK_WITH_NULL_SHA,
    TLS_RSA_PSK_WITH_NULL_SHA,
    TLS_RSA_WITH_AES_128_CBC_SHA,
    TLS_DH_DSS_WITH_AES_128_CBC_SHA,
    TLS_DH_RSA_WITH_AES_128_CBC_SHA,
    TLS_DHE_DSS_WITH_AES_128_CBC_SHA,
    TLS_DHE_RSA_WITH_AES_128_CBC_SHA,
    TLS_DH_anon_WITH_AES_128_CBC_SHA,
    TLS_RSA_WITH_AES_256_CBC_SHA,
    TLS_DH_DSS_WITH_AES_256_CBC_SHA,
    TLS_DH_RSA_WITH_AES_256_CBC_SHA,
    TLS_DHE_DSS_WITH_AES_256_CBC_SHA,
    TLS_DHE_RSA_WITH_AES_256_CBC_SHA,
    TLS_DH_anon_WITH_AES_256_CBC_SHA,
    TLS_RSA_WITH_NULL_SHA256,
    TLS_RSA_WITH_AES_128_CBC_SHA256,
    TLS_RSA_WITH_AES_256_CBC_SHA256,
    TLS_DH_DSS_WITH_AES_128_CBC_SHA256,
    TLS_DH_RSA_WITH_AES_128_CBC_SHA256,
    TLS_DHE_DSS_WITH_AES_128_CBC_SHA256,
    TLS_RSA_WITH_CAMELLIA_128_CBC_SHA,
    TLS_DH_DSS_WITH_CAMELLIA_128_CBC_SHA,
    TLS_DH_RSA_WITH_CAMELLIA_128_CBC_SHA,
    TLS_DHE_DSS_WITH_CAMELLIA_128_CBC_SHA,
    TLS_DHE_RSA_WITH_CAMELLIA_128_CBC_SHA,
    TLS_DH_anon_WITH_CAMELLIA_128_CBC_SHA,
    TLS_RSA_EXPORT1024_WITH_RC4_56_MD5,
    TLS_RSA_EXPORT1024_WITH_RC2_CBC_56_MD5,
    TLS_RSA_EXPORT1024_WITH_DES_CBC_SHA,
    TLS_DHE_DSS_EXPORT1024_WITH_DES_CBC_SHA,
    TLS_RSA_EXPORT1024_WITH_RC4_56_SHA,
    TLS_DHE_DSS_EXPORT1024_WITH_RC4_56_SHA,
    TLS_DHE_DSS_WITH_RC4_128_SHA,
    TLS_DHE_RSA_WITH_AES_128_CBC_SHA256,
    TLS_DH_DSS_WITH_AES_256_CBC_SHA256,
    TLS_DH_RSA_WITH_AES_256_CBC_SHA256,
    TLS_DHE_DSS_WITH_AES_256_CBC_SHA256,
    TLS_DHE_RSA_WITH_AES_256_CBC_SHA256,
    TLS_DH_anon_WITH_AES_128_CBC_SHA256,
    TLS_DH_anon_WITH_AES_256_CBC_SHA256,
    TLS_GOSTR341094_WITH_28147_CNT_IMIT,
    TLS_GOSTR341001_WITH_28147_CNT_IMIT,
    TLS_GOSTR341094_WITH_NULL_GOSTR3411,
    TLS_GOSTR341001_WITH_NULL_GOSTR3411,
    TLS_RSA_WITH_CAMELLIA_256_CBC_SHA,
    TLS_DH_DSS_WITH_CAMELLIA_256_CBC_SHA,
    TLS_DH_RSA_WITH_CAMELLIA_256_CBC_SHA,
    TLS_DHE_DSS_WITH_CAMELLIA_256_CBC_SHA,
    TLS_DHE_RSA_WITH_CAMELLIA_256_CBC_SHA,
    TLS_DH_anon_WITH_CAMELLIA_256_CBC_SHA,
    TLS_PSK_WITH_RC4_128_SHA,
    TLS_PSK_WITH_3DES_EDE_CBC_SHA,
    TLS_PSK_WITH_AES_128_CBC_SHA,
    TLS_PSK_WITH_AES_256_CBC_SHA,
    TLS_DHE_PSK_WITH_RC4_128_SHA,
    TLS_DHE_PSK_WITH_3DES_EDE_CBC_SHA,
    TLS_DHE_PSK_WITH_AES_128_CBC_SHA,
    TLS_DHE_PSK_WITH_AES_256_CBC_SHA,
    TLS_RSA_PSK_WITH_RC4_128_SHA,
    TLS_RSA_PSK_WITH_3DES_EDE_CBC_SHA,
    TLS_RSA_PSK_WITH_AES_128_CBC_SHA,
    TLS_RSA_PSK_WITH_AES_256_CBC_SHA,
    TLS_RSA_WITH_SEED_CBC_SHA,
    TLS_DH_DSS_WITH_SEED_CBC_SHA,
    TLS_DH_RSA_WITH_SEED_CBC_SHA,
    TLS_DHE_DSS_WITH_SEED_CBC_SHA,
    TLS_DHE_RSA_WITH_SEED_CBC_SHA,
    TLS_DH_anon_WITH_SEED_CBC_SHA,
    TLS_RSA_WITH_AES_128_GCM_SHA256,
    TLS_RSA_WITH_AES_256_GCM_SHA384,
    TLS_DHE_RSA_WITH_AES_128_GCM_SHA256,
    TLS_DHE_RSA_WITH_AES_256_GCM_SHA384,
    TLS_DH_RSA_WITH_AES_128_GCM_SHA256,
    TLS_DH_RSA_WITH_AES_256_GCM_SHA384,
    TLS_DHE_DSS_WITH_AES_128_GCM_SHA256,
    TLS_DHE_DSS_WITH_AES_256_GCM_SHA384,
    TLS_DH_DSS_WITH_AES_128_GCM_SHA256,
    TLS_DH_DSS_WITH_AES_256_GCM_SHA384,
    TLS_DH_anon_WITH_AES_128_GCM_SHA256,
    TLS_DH_anon_WITH_AES_256_GCM_SHA384,
    TLS_PSK_WITH_AES_128_GCM_SHA256,
    TLS_PSK_WITH_AES_256_GCM_SHA384,
    TLS_DHE_PSK_WITH_AES_128_GCM_SHA256,
    TLS_DHE_PSK_WITH_AES_256_GCM_SHA384,
    TLS_RSA_PSK_WITH_AES_128_GCM_SHA256,
    TLS_RSA_PSK_WITH_AES_256_GCM_SHA384,
    TLS_PSK_WITH_AES_128_CBC_SHA256,
    TLS_PSK_WITH_AES_256_CBC_SHA384,
    TLS_PSK_WITH_NULL_SHA256,
    TLS_PSK_WITH_NULL_SHA384,
    TLS_DHE_PSK_WITH_AES_128_CBC_SHA256,
    TLS_DHE_PSK_WITH_AES_256_CBC_SHA384,
    TLS_DHE_PSK_WITH_NULL_SHA256,
    TLS_DHE_PSK_WITH_NULL_SHA384,
    TLS_RSA_PSK_WITH_AES_128_CBC_SHA256,
    TLS_RSA_PSK_WITH_AES_256_CBC_SHA384,
    TLS_RSA_PSK_WITH_NULL_SHA256,
    TLS_RSA_PSK_WITH_NULL_SHA384,
    TLS_RSA_WITH_CAMELLIA_128_CBC_SHA256,
    TLS_DH_DSS_WITH_CAMELLIA_128_CBC_SHA256,
    TLS_DH_RSA_WITH_CAMELLIA_128_CBC_SHA256,
    TLS_DHE_DSS_WITH_CAMELLIA_128_CBC_SHA256,
    TLS_DHE_RSA_WITH_CAMELLIA_128_CBC_SHA256,
    TLS_DH_anon_WITH_CAMELLIA_128_CBC_SHA256,
    TLS_RSA_WITH_CAMELLIA_256_CBC_SHA256,
    TLS_DH_DSS_WITH_CAMELLIA_256_CBC_SHA256,
    TLS_DH_RSA_WITH_CAMELLIA_256_CBC_SHA256,
    TLS_DHE_DSS_WITH_CAMELLIA_256_CBC_SHA256,
    TLS_DHE_RSA_WITH_CAMELLIA_256_CBC_SHA256,
    TLS_DH_anon_WITH_CAMELLIA_256_CBC_SHA256,
    TLS_AES_128_GCM_SHA256,
    TLS_AES_256_GCM_SHA384,
    TLS_CHACHA20_POLY1305_SHA256,
    TLS_AES_128_CCM_SHA256,
    TLS_AES_128_CCM_8_SHA256,
    TLS_ECDH_ECDSA_WITH_NULL_SHA,
    TLS_ECDH_ECDSA_WITH_RC4_128_SHA,
    TLS_ECDH_ECDSA_WITH_3DES_EDE_CBC_SHA,
    TLS_ECDH_ECDSA_WITH_AES_128_CBC_SHA,
    TLS_ECDH_ECDSA_WITH_AES_256_CBC_SHA,
    TLS_ECDHE_ECDSA_WITH_NULL_SHA,
    TLS_ECDHE_ECDSA_WITH_RC4_128_SHA,
    TLS_ECDHE_ECDSA_WITH_3DES_EDE_CBC_SHA,
    TLS_ECDHE_ECDSA_WITH_AES_128_CBC_SHA,
    TLS_ECDHE_ECDSA_WITH_AES_256_CBC_SHA,
    TLS_ECDH_RSA_WITH_NULL_SHA,
    TLS_ECDH_RSA_WITH_RC4_128_SHA,
    TLS_ECDH_RSA_WITH_3DES_EDE_CBC_SHA,
    TLS_ECDH_RSA_WITH_AES_128_CBC_SHA,
    TLS_ECDH_RSA_WITH_AES_256_CBC_SHA,
    TLS_ECDHE_RSA_WITH_NULL_SHA,
    TLS_ECDHE_RSA_WITH_RC4_128_SHA,
    TLS_ECDHE_RSA_WITH_3DES_EDE_CBC_SHA,
    TLS_ECDHE_RSA_WITH_AES_128_CBC_SHA,
    TLS_ECDHE_RSA_WITH_AES_256_CBC_SHA,
    TLS_ECDH_anon_WITH_NULL_SHA,
    TLS_ECDH_anon_WITH_RC4_128_SHA,
    TLS_ECDH_anon_WITH_3DES_EDE_CBC_SHA,
    TLS_ECDH_anon_WITH_AES_128_CBC_SHA,
    TLS_ECDH_anon_WITH_AES_256_CBC_SHA,
    TLS_SRP_SHA_WITH_3DES_EDE_CBC_SHA,
    TLS_SRP_SHA_RSA_WITH_3DES_EDE_CBC_SHA,
    TLS_SRP_SHA_DSS_WITH_3DES_EDE_CBC_SHA,
    TLS_SRP_SHA_WITH_AES_128_CBC_SHA,
    TLS_SRP_SHA_RSA_WITH_AES_128_CBC_SHA,
    TLS_SRP_SHA_DSS_WITH_AES_128_CBC_SHA,
    TLS_SRP_SHA_WITH_AES_256_CBC_SHA,
    TLS_SRP_SHA_RSA_WITH_AES_256_CBC_SHA,
    TLS_SRP_SHA_DSS_WITH_AES_256_CBC_SHA,
    TLS_ECDHE_ECDSA_WITH_AES_128_CBC_SHA256,
    TLS_ECDHE_ECDSA_WITH_AES_256_CBC_SHA384,
    TLS_ECDH_ECDSA_WITH_AES_128_CBC_SHA256,
    TLS_ECDH_ECDSA_WITH_AES_256_CBC_SHA384,
    TLS_ECDHE_RSA_WITH_AES_128_CBC_SHA256,
    TLS_ECDHE_RSA_WITH_AES_256_CBC_SHA384,
    TLS_ECDH_RSA_WITH_AES_128_CBC_SHA256,
    TLS_ECDH_RSA_WITH_AES_256_CBC_SHA384,
    TLS_ECDHE_ECDSA_WITH_AES_128_GCM_SHA256,
    TLS_ECDHE_ECDSA_WITH_AES_256_GCM_SHA384,
    TLS_ECDH_ECDSA_WITH_AES_128_GCM_SHA256,
    TLS_ECDH_ECDSA_WITH_AES_256_GCM_SHA384,
    TLS_ECDHE_RSA_WITH_AES_128_GCM_SHA256,
    TLS_ECDHE_RSA_WITH_AES_256_GCM_SHA384,
    TLS_ECDH_RSA_WITH_AES_128_GCM_SHA256,
    TLS_ECDH_RSA_WITH_AES_256_GCM_SHA384,
    TLS_ECDHE_PSK_WITH_RC4_128_SHA,
    TLS_ECDHE_PSK_WITH_3DES_EDE_CBC_SHA,
    TLS_ECDHE_PSK_WITH_AES_128_CBC_SHA,
    TLS_ECDHE_PSK_WITH_AES_256_CBC_SHA,
    TLS_ECDHE_PSK_WITH_AES_128_CBC_SHA256,
    TLS_ECDHE_PSK_WITH_AES_256_CBC_SHA384,
    TLS_ECDHE_PSK_WITH_NULL_SHA,
    TLS_ECDHE_PSK_WITH_NULL_SHA256,
    TLS_ECDHE_PSK_WITH_NULL_SHA384,
    TLS_RSA_WITH_ARIA_128_GCM_SHA256,
    TLS_RSA_WITH_ARIA_256_GCM_SHA384,
    TLS_DHE_RSA_WITH_ARIA_128_GCM_SHA256,
    TLS_DHE_RSA_WITH_ARIA_256_GCM_SHA384,
    TLS_DHE_DSS_WITH_ARIA_128_GCM_SHA256,
    TLS_DHE_DSS_WITH_ARIA_256_GCM_SHA384,
    TLS_ECDHE_ECDSA_WITH_ARIA_128_GCM_SHA256,
    TLS_ECDHE_ECDSA_WITH_ARIA_256_GCM_SHA384,
    TLS_ECDHE_RSA_WITH_ARIA_128_GCM_SHA256,
    TLS_ECDHE_RSA_WITH_ARIA_256_GCM_SHA384,
    TLS_PSK_WITH_ARIA_128_GCM_SHA256,
    TLS_PSK_WITH_ARIA_256_GCM_SHA384,
    TLS_DHE_PSK_WITH_ARIA_128_GCM_SHA256,
    TLS_DHE_PSK_WITH_ARIA_256_GCM_SHA384,
    TLS_RSA_PSK_WITH_ARIA_128_GCM_SHA256,
    TLS_RSA_PSK_WITH_ARIA_256_GCM_SHA384,
    TLS_ECDHE_ECDSA_WITH_CAMELLIA_128_CBC_SHA256,
    TLS_ECDHE_ECDSA_WITH_CAMELLIA_256_CBC_SHA384,
    TLS_ECDH_ECDSA_WITH_CAMELLIA_128_CBC_SHA256,
    TLS_ECDH_ECDSA_WITH_CAMELLIA_256_CBC_SHA384,
    TLS_ECDHE_RSA_WITH_CAMELLIA_128_CBC_SHA256,
    TLS_ECDHE_RSA_WITH_CAMELLIA_256_CBC_SHA384,
    TLS_ECDH_RSA_WITH_CAMELLIA_128_CBC_SHA256,
    TLS_ECDH_RSA_WITH_CAMELLIA_256_CBC_SHA384,
    TLS_PSK_WITH_CAMELLIA_128_CBC_SHA256,
    TLS_PSK_WITH_CAMELLIA_256_CBC_SHA384,
    TLS_DHE_PSK_WITH_CAMELLIA_128_CBC_SHA256,
    TLS_DHE_PSK_WITH_CAMELLIA_256_CBC_SHA384,
    TLS_RSA_PSK_WITH_CAMELLIA_128_CBC_SHA256,
    TLS_RSA_PSK_WITH_CAMELLIA_256_CBC_SHA384,
    TLS_ECDHE_PSK_WITH_CAMELLIA_128_CBC_SHA256,
    TLS_ECDHE_PSK_WITH_CAMELLIA_256_CBC_SHA384,
    TLS_RSA_WITH_AES_128_CCM,
    TLS_RSA_WITH_AES_256_CCM,
    TLS_DHE_RSA_WITH_AES_128_CCM,
    TLS_DHE_RSA_WITH_AES_256_CCM,
    TLS_RSA_WITH_AES_128_CCM_8,
    TLS_RSA_WITH_AES_256_CCM_8,
    TLS_DHE_RSA_WITH_AES_128_CCM_8,
    TLS_DHE_RSA_WITH_AES_256_CCM_8,
    TLS_PSK_WITH_AES_128_CCM,
    TLS_PSK_WITH_AES_256_CCM,
    TLS_DHE_PSK_WITH_AES_128_CCM,
    TLS_DHE_PSK_WITH_AES_256_CCM,
    TLS_PSK_WITH_AES_128_CCM_8,
    TLS_PSK_WITH_AES_256_CCM_8,
    TLS_PSK_DHE_WITH_AES_128_CCM_8,
    TLS_PSK_DHE_WITH_AES_256_CCM_8,
    TLS_ECDHE_ECDSA_WITH_AES_128_CCM,
    TLS_ECDHE_ECDSA_WITH_AES_256_CCM,
    TLS_ECDHE_ECDSA_WITH_AES_128_CCM_8,
    TLS_ECDHE_ECDSA_WITH_AES_256_CCM_8,
    OLD_TLS_ECDHE_RSA_WITH_CHACHA20_POLY1305_SHA256,
    OLD_TLS_ECDHE_ECDSA_WITH_CHACHA20_POLY1305_SHA256,
    OLD_TLS_DHE_RSA_WITH_CHACHA20_POLY1305_SHA256,
    TLS_ECDHE_RSA_WITH_CHACHA20_POLY1305_SHA256,
    TLS_ECDHE_ECDSA_WITH_CHACHA20_POLY1305_SHA256,
    TLS_DHE_RSA_WITH_CHACHA20_POLY1305_SHA256,
    TLS_PSK_WITH_CHACHA20_POLY1305_SHA256,
    TLS_ECDHE_PSK_WITH_CHACHA20_POLY1305_SHA256,
    TLS_DHE_PSK_WITH_CHACHA20_POLY1305_SHA256,
    TLS_RSA_PSK_WITH_CHACHA20_POLY1305_SHA256,
}

impl TLSCipherSuite {
    /// The OpenSSL spelling of the suite.
    pub open spec fn spec_openssl_name(self) -> Seq<char> {
        match self {
            TLSCipherSuite::TLS_RSA_WITH_NULL_MD5 => "NULL-MD5"@,
            TLSCipherSuite::TLS_RSA_WITH_NULL_SHA => "NULL-SHA"@,
            TLSCipherSuite::TLS_RSA_EXPORT_WITH_RC4_40_MD5 => "EXP-RC4-MD5"@,
            TLSCipherSuite::TLS_RSA_WITH_RC4_128_MD5 => "RC4-MD5"@,
            TLSCipherSuite::TLS_RSA_WITH_RC4_128_SHA => "RC4-SHA"@,
            TLSCipherSuite::TLS_RSA_EXPORT_WITH_RC2_CBC_40_MD5 => "EXP-RC2-CBC-MD5"@,
            TLSCipherSuite::TLS_RSA_WITH_IDEA_CBC_SHA => "IDEA-CBC-SHA"@,
            TLSCipherSuite::TLS_RSA_EXPORT_WITH_DES40_CBC_SHA => "EXP-DES-CBC-SHA"@,
            TLSCipherSuite::TLS_RSA_WITH_DES_CBC_SHA => "DES-CBC-SHA"@,
            TLSCipherSuite::TLS_RSA_WITH_3DES_EDE_CBC_SHA => "DES-CBC3-SHA"@,
            TLSCipherSuite::TLS_DH_DSS_EXPORT_WITH_DES40_CBC_SHA => "EXP-DH-DSS-DES-CBC-SHA"@,
            TLSCipherSuite::TLS_DH_DSS_WITH_DES_CBC_SHA => "DH-DSS-DES-CBC-SHA"@,
            TLSCipherSuite::TLS_DH_DSS_WITH_3DES_EDE_CBC_SHA => "DH-DSS-DES-CBC3-SHA"@,
            TLSCipherSuite::TLS_DH_RSA_EXPORT_WITH_DES40_CBC_SHA => "EXP-DH-RSA-DES-CBC-SHA"@,
            TLSCipherSuite::TLS_DH_RSA_WITH_DES_CBC_SHA => "DH-RSA-DES-CBC-SHA"@,
            TLSCipherSuite::TLS_DH_RSA_WITH_3DES_EDE_CBC_SHA => "DH-RSA-DES-CBC3-SHA"@,
            TLSCipherSuite::TLS_DHE_DSS_EXPORT_WITH_DES40_CBC_SHA => "EXP-EDH-DSS-DES-CBC-SHA"@,
            TLSCipherSuite::TLS_DHE_DSS_WITH_DES_CBC_SHA => "EDH-DSS-DES-CBC-SHA"@,
            TLSCipherSuite::TLS_DHE_DSS_WITH_3DES_EDE_CBC_SHA => "DHE-DSS-DES-CBC3-SHA"@,
            TLSCipherSuite::TLS_DHE_RSA_EXPORT_WITH_DES40_CBC_SHA => "EXP-EDH-RSA-DES-CBC-SHA"@,
            TLSCipherSuite::TLS_DHE_RSA_WITH_DES_CBC_SHA => "EDH-RSA-DES-CBC-SHA"@,
            TLSCipherSuite::TLS_DHE_RSA_WITH_3DES_EDE_CBC_SHA => "DHE-RSA-DES-CBC3-SHA"@,
            TLSCipherSuite::TLS_DH_anon_EXPORT_WITH_RC4_40_MD5 => "EXP-ADH-RC4-MD5"@,
            TLSCipherSuite::TLS_DH_anon_WITH_RC4_128_MD5 => "ADH-RC4-MD5"@,
            TLSCipherSuite::TLS_DH_anon_EXPORT_WITH_DES40_CBC_SHA => "EXP-ADH-DES-CBC-SHA"@,
            TLSCipherSuite::TLS_DH_anon_WITH_DES_CBC_SHA => "ADH-DES-CBC-SHA"@,
            TLSCipherSuite::TLS_DH_anon_WITH_3DES_EDE_CBC_SHA => "ADH-DES-CBC3-SHA"@,
            TLSCipherSuite::TLS_KRB5_WITH_DES_CBC_SHA => "KRB5-DES-CBC-SHA"@,
            TLSCipherSuite::TLS_KRB5_WITH_3DES_EDE_CBC_SHA => "KRB5-DES-CBC3-SHA"@,
            TLSCipherSuite::TLS_KRB5_WITH_RC4_128_SHA => "KRB5-RC4-SHA"@,
            TLSCipherSuite::TLS_KRB5_WITH_IDEA_CBC_SHA => "KRB5-IDEA-CBC-SHA"@,
            TLSCipherSuite::TLS_KRB5_WITH_DES_CBC_MD5 => "KRB5-DES-CBC-MD5"@,
            TLSCipherSuite::TLS_KRB5_WITH_3DES_EDE_CBC_MD5 => "KRB5-DES-CBC3-MD5"@,
            TLSCipherSuite::TLS_KRB5_WITH_RC4_128_MD5 => "KRB5-RC4-MD5"@,
            TLSCipherSuite::TLS_KRB5_WITH_IDEA_CBC_MD5 => "KRB5-IDEA-CBC-MD5"@,
            TLSCipherSuite::TLS_KRB5_EXPORT_WITH_DES_CBC_40_SHA => "EXP-KRB5-DES-CBC-SHA"@,
            TLSCipherSuite::TLS_KRB5_EXPORT_WITH_RC2_CBC_40_SHA => "EXP-KRB5-RC2-CBC-SHA"@,
            TLSCipherSuite::TLS_KRB5_EXPORT_WITH_RC4_40_SHA => "EXP-KRB5-RC4-SHA"@,
            TLSCipherSuite::TLS_KRB5_EXPORT_WITH_DES_CBC_40_MD5 => "EXP-KRB5-DES-CBC-MD5"@,
            TLSCipherSuite::TLS_KRB5_EXPORT_WITH_RC2_CBC_40_MD5 => "EXP-KRB5-RC2-CBC-MD5"@,
            TLSCipherSuite::TLS_KRB5_EXPORT_WITH_RC4_40_MD5 => "EXP-KRB5-RC4-MD5"@,
            TLSCipherSuite::TLS_PSK_WITH_NULL_SHA => "PSK-NULL-SHA"@,
            TLSCipherSuite::TLS_DHE_PSK_WITH_NULL_SHA => "DHE-PSK-NULL-SHA"@,
            TLSCipherSuite::TLS_RSA_PSK_WITH_NULL_SHA => "RSA-PSK-NULL-SHA"@,
            TLSCipherSuite::TLS_RSA_WITH_AES_128_CBC_SHA => "AES128-SHA"@,
            TLSCipherSuite::TLS_DH_DSS_WITH_AES_128_CBC_SHA => "DH-DSS-AES128-SHA"@,
            TLSCipherSuite::TLS_DH_RSA_WITH_AES_128_CBC_SHA => "DH-RSA-AES128-SHA"@,
            TLSCipherSuite::TLS_DHE_DSS_WITH_AES_128_CBC_SHA => "DHE-DSS-AES128-SHA"@,
            TLSCipherSuite::TLS_DHE_RSA_WITH_AES_128_CBC_SHA => "DHE-RSA-AES128-SHA"@,
            TLSCipherSuite::TLS_DH_anon_WITH_AES_128_CBC_SHA => "ADH-AES128-SHA"@,
            TLSCipherSuite::TLS_RSA_WITH_AES_256_CBC_SHA => "AES256-SHA"@,
            TLSCipherSuite::TLS_DH_DSS_WITH_AES_256_CBC_SHA => "DH-DSS-AES256-SHA"@,
            TLSCipherSuite::TLS_DH_RSA_WITH_AES_256_CBC_SHA => "DH-RSA-AES256-SHA"@,
            TLSCipherSuite::TLS_DHE_DSS_WITH_AES_256_CBC_SHA => "DHE-DSS-AES256-SHA"@,
            TLSCipherSuite::TLS_DHE_RSA_WITH_AES_256_CBC_SHA => "DHE-RSA-AES256-SHA"@,
            TLSCipherSuite::TLS_DH_anon_WITH_AES_256_CBC_SHA => "ADH-AES256-SHA"@,
            TLSCipherSuite::TLS_RSA_WITH_NULL_SHA256 => "NULL-SHA256"@,
            TLSCipherSuite::TLS_RSA_WITH_AES_128_CBC_SHA256 => "AES128-SHA256"@,
            TLSCipherSuite::TLS_RSA_WITH_AES_256_CBC_SHA256 => "AES256-SHA256"@,
            TLSCipherSuite::TLS_DH_DSS_WITH_AES_128_CBC_SHA256 => "DH-DSS-AES128-SHA256"@,
            TLSCipherSuite::TLS_DH_RSA_WITH_AES_128_CBC_SHA256 => "DH-RSA-AES128-SHA256"@,
            TLSCipherSuite::TLS_DHE_DSS_WITH_AES_128_CBC_SHA256 => "DHE-DSS-AES128-SHA256"@,
            TLSCipherSuite::TLS_RSA_WITH_CAMELLIA_128_CBC_SHA => "CAMELLIA128-SHA"@,
            TLSCipherSuite::TLS_DH_DSS_WITH_CAMELLIA_128_CBC_SHA => "DH-DSS-CAMELLIA128-SHA"@,
            TLSCipherSuite::TLS_DH_RSA_WITH_CAMELLIA_128_CBC_SHA => "DH-RSA-CAMELLIA128-SHA"@,
            TLSCipherSuite::TLS_DHE_DSS_WITH_CAMELLIA_128_CBC_SHA => "DHE-DSS-CAMELLIA128-SHA"@,
            TLSCipherSuite::TLS_DHE_RSA_WITH_CAMELLIA_128_CBC_SHA => "DHE-RSA-CAMELLIA128-SHA"@,
            TLSCipherSuite::TLS_DH_anon_WITH_CAMELLIA_128_CBC_SHA => "ADH-CAMELLIA128-SHA"@,
            TLSCipherSuite::TLS_RSA_EXPORT1024_WITH_RC4_56_MD5 => "EXP1024-RC4-MD5"@,
            TLSCipherSuite::TLS_RSA_EXPORT1024_WITH_RC2_CBC_56_MD5 => "EXP1024-RC2-CBC-MD5"@,
            TLSCipherSuite::TLS_RSA_EXPORT1024_WITH_DES_CBC_SHA => "EXP1024-DES-CBC-SHA"@,
            TLSCipherSuite::TLS_DHE_DSS_EXPORT1024_WITH_DES_CBC_SHA => "EXP1024-DHE-DSS-DES-CBC-SHA"@,
            TLSCipherSuite::TLS_RSA_EXPORT1024_WITH_RC4_56_SHA => "EXP1024-RC4-SHA"@,
            TLSCipherSuite::TLS_DHE_DSS_EXPORT1024_WITH_RC4_56_SHA => "EXP1024-DHE-DSS-RC4-SHA"@,
            TLSCipherSuite::TLS_DHE_DSS_WITH_RC4_128_SHA => "DHE-DSS-RC4-SHA"@,
            TLSCipherSuite::TLS_DHE_RSA_WITH_AES_128_CBC_SHA256 => "DHE-RSA-AES128-SHA256"@,
            TLSCipherSuite::TLS_DH_DSS_WITH_AES_256_CBC_SHA256 => "DH-DSS-AES256-SHA256"@,
            TLSCipherSuite::TLS_DH_RSA_WITH_AES_256_CBC_SHA256 => "DH-RSA-AES256-SHA256"@,
            TLSCipherSuite::TLS_DHE_DSS_WITH_AES_256_CBC_SHA256 => "DHE-DSS-AES256-SHA256"@,
            TLSCipherSuite::TLS_DHE_RSA_WITH_AES_256_CBC_SHA256 => "DHE-RSA-AES256-SHA256"@,
            TLSCipherSuite::TLS_DH_anon_WITH_AES_128_CBC_SHA256 => "ADH-AES128-SHA256"@,
            TLSCipherSuite::TLS_DH_anon_WITH_AES_256_CBC_SHA256 => "ADH-AES256-SHA256"@,
            TLSCipherSuite::TLS_GOSTR341094_WITH_28147_CNT_IMIT => "GOST94-GOST89-GOST89"@,
            TLSCipherSuite::TLS_GOSTR341001_WITH_28147_CNT_IMIT => "GOST2001-GOST89-GOST89"@,
            TLSCipherSuite::TLS_GOSTR341094_WITH_NULL_GOSTR3411 => "GOST94-NULL-GOST94"@,
            TLSCipherSuite::TLS_GOSTR341001_WITH_NULL_GOSTR3411 => "GOST2001-NULL-GOST94"@,
            TLSCipherSuite::TLS_RSA_WITH_CAMELLIA_256_CBC_SHA => "CAMELLIA256-SHA"@,
            TLSCipherSuite::TLS_DH_DSS_WITH_CAMELLIA_256_CBC_SHA => "DH-DSS-CAMELLIA256-SHA"@,
            TLSCipherSuite::TLS_DH_RSA_WITH_CAMELLIA_256_CBC_SHA => "DH-RSA-CAMELLIA256-SHA"@,
            TLSCipherSuite::TLS_DHE_DSS_WITH_CAMELLIA_256_CBC_SHA => "DHE-DSS-CAMELLIA256-SHA"@,
            TLSCipherSuite::TLS_DHE_RSA_WITH_CAMELLIA_256_CBC_SHA => "DHE-RSA-CAMELLIA256-SHA"@,
            TLSCipherSuite::TLS_DH_anon_WITH_CAMELLIA_256_CBC_SHA => "ADH-CAMELLIA256-SHA"@,
            TLSCipherSuite::TLS_PSK_WITH_RC4_128_SHA => "PSK-RC4-SHA"@,
            TLSCipherSuite::TLS_PSK_WITH_3DES_EDE_CBC_SHA => "PSK-3DES-EDE-CBC-SHA"@,
            TLSCipherSuite::TLS_PSK_WITH_AES_128_CBC_SHA => "PSK-AES128-CBC-SHA"@,
            TLSCipherSuite::TLS_PSK_WITH_AES_256_CBC_SHA => "PSK-AES256-CBC-SHA"@,
            TLSCipherSuite::TLS_DHE_PSK_WITH_RC4_128_SHA => "DHE-PSK-RC4-SHA"@,
            TLSCipherSuite::TLS_DHE_PSK_WITH_3DES_EDE_CBC_SHA => "DHE-PSK-3DES-EDE-CBC-SHA"@,
            TLSCipherSuite::TLS_DHE_PSK_WITH_AES_128_CBC_SHA => "DHE-PSK-AES128-CBC-SHA"@,
            TLSCipherSuite::TLS_DHE_PSK_WITH_AES_256_CBC_SHA => "DHE-PSK-AES256-CBC-SHA"@,
            TLSCipherSuite::TLS_RSA_PSK_WITH_RC4_128_SHA => "RSA-PSK-RC4-SHA"@,
            TLSCipherSuite::TLS_RSA_PSK_WITH_3DES_EDE_CBC_SHA => "RSA-PSK-3DES-EDE-CBC-SHA"@,
            TLSCipherSuite::TLS_RSA_PSK_WITH_AES_128_CBC_SHA => "RSA-PSK-AES128-CBC-SHA"@,
            TLSCipherSuite::TLS_RSA_PSK_WITH_AES_256_CBC_SHA => "RSA-PSK-AES256-CBC-SHA"@,
            TLSCipherSuite::TLS_RSA_WITH_SEED_CBC_SHA => "SEED-SHA"@,
            TLSCipherSuite::TLS_DH_DSS_WITH_SEED_CBC_SHA => "DH-DSS-SEED-SHA"@,
            TLSCipherSuite::TLS_DH_RSA_WITH_SEED_CBC_SHA => "DH-RSA-SEED-SHA"@,
            TLSCipherSuite::TLS_DHE_DSS_WITH_SEED_CBC_SHA => "DHE-DSS-SEED-SHA"@,
            TLSCipherSuite::TLS_DHE_RSA_WITH_SEED_CBC_SHA => "DHE-RSA-SEED-SHA"@,
            TLSCipherSuite::TLS_DH_anon_WITH_SEED_CBC_SHA => "ADH-SEED-SHA"@,
            TLSCipherSuite::TLS_RSA_WITH_AES_128_GCM_SHA256 => "AES128-GCM-SHA256"@,
            TLSCipherSuite::TLS_RSA_WITH_AES_256_GCM_SHA384 => "AES256-GCM-SHA384"@,
            TLSCipherSuite::TLS_DHE_RSA_WITH_AES_128_GCM_SHA256 => "DHE-RSA-AES128-GCM-SHA256"@,
            TLSCipherSuite::TLS_DHE_RSA_WITH_AES_256_GCM_SHA384 => "DHE-RSA-AES256-GCM-SHA384"@,
            TLSCipherSuite::TLS_DH_RSA_WITH_AES_128_GCM_SHA256 => "DH-RSA-AES128-GCM-SHA256"@,
            TLSCipherSuite::TLS_DH_RSA_WITH_AES_256_GCM_SHA384 => "DH-RSA-AES256-GCM-SHA384"@,
            TLSCipherSuite::TLS_DHE_DSS_WITH_AES_128_GCM_SHA256 => "DHE-DSS-AES128-GCM-SHA256"@,
            TLSCipherSuite::TLS_DHE_DSS_WITH_AES_256_GCM_SHA384 => "DHE-DSS-AES256-GCM-SHA384"@,
            TLSCipherSuite::TLS_DH_DSS_WITH_AES_128_GCM_SHA256 => "DH-DSS-AES128-GCM-SHA256"@,
            TLSCipherSuite::TLS_DH_DSS_WITH_AES_256_GCM_SHA384 => "DH-DSS-AES256-GCM-SHA384"@,
            TLSCipherSuite::TLS_DH_anon_WITH_AES_128_GCM_SHA256 => "ADH-AES128-GCM-SHA256"@,
            TLSCipherSuite::TLS_DH_anon_WITH_AES_256_GCM_SHA384 => "ADH-AES256-GCM-SHA384"@,
            TLSCipherSuite::TLS_PSK_WITH_AES_128_GCM_SHA256 => "PSK-AES128-GCM-SHA256"@,
            TLSCipherSuite::TLS_PSK_WITH_AES_256_GCM_SHA384 => "PSK-AES256-GCM-SHA384"@,
            TLSCipherSuite::TLS_DHE_PSK_WITH_AES_128_GCM_SHA256 => "DHE-PSK-AES128-GCM-SHA256"@,
            TLSCipherSuite::TLS_DHE_PSK_WITH_AES_256_GCM_SHA384 => "DHE-PSK-AES256-GCM-SHA384"@,
            TLSCipherSuite::TLS_RSA_PSK_WITH_AES_128_GCM_SHA256 => "RSA-PSK-AES128-GCM-SHA256"@,
            TLSCipherSuite::TLS_RSA_PSK_WITH_AES_256_GCM_SHA384 => "RSA-PSK-AES256-GCM-SHA384"@,
            TLSCipherSuite::TLS_PSK_WITH_AES_128_CBC_SHA256 => "PSK-AES128-CBC-SHA256"@,
            TLSCipherSuite::TLS_PSK_WITH_AES_256_CBC_SHA384 => "PSK-AES256-CBC-SHA384"@,
            TLSCipherSuite::TLS_PSK_WITH_NULL_SHA256 => "PSK-NULL-SHA256"@,
            TLSCipherSuite::TLS_PSK_WITH_NULL_SHA384 => "PSK-NULL-SHA384"@,
            TLSCipherSuite::TLS_DHE_PSK_WITH_AES_128_CBC_SHA256 => "DHE-PSK-AES128-CBC-SHA256"@,
            TLSCipherSuite::TLS_DHE_PSK_WITH_AES_256_CBC_SHA384 => "DHE-PSK-AES256-CBC-SHA384"@,
            TLSCipherSuite::TLS_DHE_PSK_WITH_NULL_SHA256 => "DHE-PSK-NULL-SHA256"@,
            TLSCipherSuite::TLS_DHE_PSK_WITH_NULL_SHA384 => "DHE-PSK-NULL-SHA384"@,
            TLSCipherSuite::TLS_RSA_PSK_WITH_AES_128_CBC_SHA256 => "RSA-PSK-AES128-CBC-SHA256"@,
            TLSCipherSuite::TLS_RSA_PSK_WITH_AES_256_CBC_SHA384 => "RSA-PSK-AES256-CBC-SHA384"@,
            TLSCipherSuite::TLS_RSA_PSK_WITH_NULL_SHA256 => "RSA-PSK-NULL-SHA256"@,
            TLSCipherSuite::TLS_RSA_PSK_WITH_NULL_SHA384 => "RSA-PSK-NULL-SHA384"@,
            TLSCipherSuite::TLS_RSA_WITH_CAMELLIA_128_CBC_SHA256 => "CAMELLIA128-SHA256"@,
            TLSCipherSuite::TLS_DH_DSS_WITH_CAMELLIA_128_CBC_SHA256 => "DH-DSS-CAMELLIA128-SHA256"@,
            TLSCipherSuite::TLS_DH_RSA_WITH_CAMELLIA_128_CBC_SHA256 => "DH-RSA-CAMELLIA128-SHA256"@,
            TLSCipherSuite::TLS_DHE_DSS_WITH_CAMELLIA_128_CBC_SHA256 => "DHE-DSS-CAMELLIA128-SHA256"@,
            TLSCipherSuite::TLS_DHE_RSA_WITH_CAMELLIA_128_CBC_SHA256 => "DHE-RSA-CAMELLIA128-SHA256"@,
            TLSCipherSuite::TLS_DH_anon_WITH_CAMELLIA_128_CBC_SHA256 => "ADH-CAMELLIA128-SHA256"@,
            TLSCipherSuite::TLS_RSA_WITH_CAMELLIA_256_CBC_SHA256 => "CAMELLIA256-SHA256"@,
            TLSCipherSuite::TLS_DH_DSS_WITH_CAMELLIA_256_CBC_SHA256 => "DH-DSS-CAMELLIA256-SHA256"@,
            TLSCipherSuite::TLS_DH_RSA_WITH_CAMELLIA_256_CBC_SHA256 => "DH-RSA-CAMELLIA256-SHA256"@,
            TLSCipherSuite::TLS_DHE_DSS_WITH_CAMELLIA_256_CBC_SHA256 => "DHE-DSS-CAMELLIA256-SHA256"@,
            TLSCipherSuite::TLS_DHE_RSA_WITH_CAMELLIA_256_CBC_SHA256 => "DHE-RSA-CAMELLIA256-SHA256"@,
            TLSCipherSuite::TLS_DH_anon_WITH_CAMELLIA_256_CBC_SHA256 => "ADH-CAMELLIA256-SHA256"@,
            TLSCipherSuite::TLS_AES_128_GCM_SHA256 => "TLS_AES_128_GCM_SHA256"@,
            TLSCipherSuite::TLS_AES_256_GCM_SHA384 => "TLS_AES_256_GCM_SHA384"@,
            TLSCipherSuite::TLS_CHACHA20_POLY1305_SHA256 => "TLS_CHACHA20_POLY1305_SHA256"@,
            TLSCipherSuite::TLS_AES_128_CCM_SHA256 => "TLS_AES_128_CCM_SHA256"@,
            TLSCipherSuite::TLS_AES_128_CCM_8_SHA256 => "TLS_AES_128_CCM_8_SHA256"@,
            TLSCipherSuite::TLS_ECDH_ECDSA_WITH_NULL_SHA => "ECDH-ECDSA-NULL-SHA"@,
            TLSCipherSuite::TLS_ECDH_ECDSA_WITH_RC4_128_SHA => "ECDH-ECDSA-RC4-SHA"@,
            TLSCipherSuite::TLS_ECDH_ECDSA_WITH_3DES_EDE_CBC_SHA => "ECDH-ECDSA-DES-CBC3-SHA"@,
            TLSCipherSuite::TLS_ECDH_ECDSA_WITH_AES_128_CBC_SHA => "ECDH-ECDSA-AES128-SHA"@,
            TLSCipherSuite::TLS_ECDH_ECDSA_WITH_AES_256_CBC_SHA => "ECDH-ECDSA-AES256-SHA"@,
            TLSCipherSuite::TLS_ECDHE_ECDSA_WITH_NULL_SHA => "ECDHE-ECDSA-NULL-SHA"@,
            TLSCipherSuite::TLS_ECDHE_ECDSA_WITH_RC4_128_SHA => "ECDHE-ECDSA-RC4-SHA"@,
            TLSCipherSuite::TLS_ECDHE_ECDSA_WITH_3DES_EDE_CBC_SHA => "ECDHE-ECDSA-DES-CBC3-SHA"@,
            TLSCipherSuite::TLS_ECDHE_ECDSA_WITH_AES_128_CBC_SHA => "ECDHE-ECDSA-AES128-SHA"@,
            TLSCipherSuite::TLS_ECDHE_ECDSA_WITH_AES_256_CBC_SHA => "ECDHE-ECDSA-AES256-SHA"@,
            TLSCipherSuite::TLS_ECDH_RSA_WITH_NULL_SHA => "ECDH-RSA-NULL-SHA"@,
            TLSCipherSuite::TLS_ECDH_RSA_WITH_RC4_128_SHA => "ECDH-RSA-RC4-SHA"@,
            TLSCipherSuite::TLS_ECDH_RSA_WITH_3DES_EDE_CBC_SHA => "ECDH-RSA-DES-CBC3-SHA"@,
            TLSCipherSuite::TLS_ECDH_RSA_WITH_AES_128_CBC_SHA => "ECDH-RSA-AES128-SHA"@,
            TLSCipherSuite::TLS_ECDH_RSA_WITH_AES_256_CBC_SHA => "ECDH-RSA-AES256-SHA"@,
            TLSCipherSuite::TLS_ECDHE_RSA_WITH_NULL_SHA => "ECDHE-RSA-NULL-SHA"@,
            TLSCipherSuite::TLS_ECDHE_RSA_WITH_RC4_128_SHA => "ECDHE-RSA-RC4-SHA"@,
            TLSCipherSuite::TLS_ECDHE_RSA_WITH_3DES_EDE_CBC_SHA => "ECDHE-RSA-DES-CBC3-SHA"@,
            TLSCipherSuite::TLS_ECDHE_RSA_WITH_AES_128_CBC_SHA => "ECDHE-RSA-AES128-SHA"@,
            TLSCipherSuite::TLS_ECDHE_RSA_WITH_AES_256_CBC_SHA => "ECDHE-RSA-AES256-SHA"@,
            TLSCipherSuite::TLS_ECDH_anon_WITH_NULL_SHA => "AECDH-NULL-SHA"@,
            TLSCipherSuite::TLS_ECDH_anon_WITH_RC4_128_SHA => "AECDH-RC4-SHA"@,
            TLSCipherSuite::TLS_ECDH_anon_WITH_3DES_EDE_CBC_SHA => "AECDH-DES-CBC3-SHA"@,
            TLSCipherSuite::TLS_ECDH_anon_WITH_AES_128_CBC_SHA => "AECDH-AES128-SHA"@,
            TLSCipherSuite::TLS_ECDH_anon_WITH_AES_256_CBC_SHA => "AECDH-AES256-SHA"@,
            TLSCipherSuite::TLS_SRP_SHA_WITH_3DES_EDE_CBC_SHA => "SRP-3DES-EDE-CBC-SHA"@,
            TLSCipherSuite::TLS_SRP_SHA_RSA_WITH_3DES_EDE_CBC_SHA => "SRP-RSA-3DES-EDE-CBC-SHA"@,
            TLSCipherSuite::TLS_SRP_SHA_DSS_WITH_3DES_EDE_CBC_SHA => "SRP-DSS-3DES-EDE-CBC-SHA"@,
            TLSCipherSuite::TLS_SRP_SHA_WITH_AES_128_CBC_SHA => "SRP-AES-128-CBC-SHA"@,
            TLSCipherSuite::TLS_SRP_SHA_RSA_WITH_AES_128_CBC_SHA => "SRP-RSA-AES-128-CBC-SHA"@,
            TLSCipherSuite::TLS_SRP_SHA_DSS_WITH_AES_128_CBC_SHA => "SRP-DSS-AES-128-CBC-SHA"@,
            TLSCipherSuite::TLS_SRP_SHA_WITH_AES_256_CBC_SHA => "SRP-AES-256-CBC-SHA"@,
            TLSCipherSuite::TLS_SRP_SHA_RSA_WITH_AES_256_CBC_SHA => "SRP-RSA-AES-256-CBC-SHA"@,
            TLSCipherSuite::TLS_SRP_SHA_DSS_WITH_AES_256_CBC_SHA => "SRP-DSS-AES-256-CBC-SHA"@,
            TLSCipherSuite::TLS_ECDHE_ECDSA_WITH_AES_128_CBC_SHA256 => "ECDHE-ECDSA-AES128-SHA256"@,
            TLSCipherSuite::TLS_ECDHE_ECDSA_WITH_AES_256_CBC_SHA384 => "ECDHE-ECDSA-AES256-SHA384"@,
            TLSCipherSuite::TLS_ECDH_ECDSA_WITH_AES_128_CBC_SHA256 => "ECDH-ECDSA-AES128-SHA256"@,
            TLSCipherSuite::TLS_ECDH_ECDSA_WITH_AES_256_CBC_SHA384 => "ECDH-ECDSA-AES256-SHA384"@,
            TLSCipherSuite::TLS_ECDHE_RSA_WITH_AES_128_CBC_SHA256 => "ECDHE-RSA-AES128-SHA256"@,
            TLSCipherSuite::TLS_ECDHE_RSA_WITH_AES_256_CBC_SHA384 => "ECDHE-RSA-AES256-SHA384"@,
            TLSCipherSuite::TLS_ECDH_RSA_WITH_AES_128_CBC_SHA256 => "ECDH-RSA-AES128-SHA256"@,
            TLSCipherSuite::TLS_ECDH_RSA_WITH_AES_256_CBC_SHA384 => "ECDH-RSA-AES256-SHA384"@,
            TLSCipherSuite::TLS_ECDHE_ECDSA_WITH_AES_128_GCM_SHA256 => "ECDHE-ECDSA-AES128-GCM-SHA256"@,
            TLSCipherSuite::TLS_ECDHE_ECDSA_WITH_AES_256_GCM_SHA384 => "ECDHE-ECDSA-AES256-GCM-SHA384"@,
            TLSCipherSuite::TLS_ECDH_ECDSA_WITH_AES_128_GCM_SHA256 => "ECDH-ECDSA-AES128-GCM-SHA256"@,
            TLSCipherSuite::TLS_ECDH_ECDSA_WITH_AES_256_GCM_SHA384 => "ECDH-ECDSA-AES256-GCM-SHA384"@,
            TLSCipherSuite::TLS_ECDHE_RSA_WITH_AES_128_GCM_SHA256 => "ECDHE-RSA-AES128-GCM-SHA256"@,
            TLSCipherSuite::TLS_ECDHE_RSA_WITH_AES_256_GCM_SHA384 => "ECDHE-RSA-AES256-GCM-SHA384"@,
            TLSCipherSuite::TLS_ECDH_RSA_WITH_AES_128_GCM_SHA256 => "ECDH-RSA-AES128-GCM-SHA256"@,
            TLSCipherSuite::TLS_ECDH_RSA_WITH_AES_256_GCM_SHA384 => "ECDH-RSA-AES256-GCM-SHA384"@,
            TLSCipherSuite::TLS_ECDHE_PSK_WITH_RC4_128_SHA => "ECDHE-PSK-RC4-SHA"@,
            TLSCipherSuite::TLS_ECDHE_PSK_WITH_3DES_EDE_CBC_SHA => "ECDHE-PSK-3DES-EDE-CBC-SHA"@,
            TLSCipherSuite::TLS_ECDHE_PSK_WITH_AES_128_CBC_SHA => "ECDHE-PSK-AES128-CBC-SHA"@,
            TLSCipherSuite::TLS_ECDHE_PSK_WITH_AES_256_CBC_SHA => "ECDHE-PSK-AES256-CBC-SHA"@,
            TLSCipherSuite::TLS_ECDHE_PSK_WITH_AES_128_CBC_SHA256 => "ECDHE-PSK-AES128-CBC-SHA256"@,
            TLSCipherSuite::TLS_ECDHE_PSK_WITH_AES_256_CBC_SHA384 => "ECDHE-PSK-AES256-CBC-SHA384"@,
            TLSCipherSuite::TLS_ECDHE_PSK_WITH_NULL_SHA => "ECDHE-PSK-NULL-SHA"@,
            TLSCipherSuite::TLS_ECDHE_PSK_WITH_NULL_SHA256 => "ECDHE-PSK-NULL-SHA256"@,
            TLSCipherSuite::TLS_ECDHE_PSK_WITH_NULL_SHA384 => "ECDHE-PSK-NULL-SHA384"@,
            TLSCipherSuite::TLS_RSA_WITH_ARIA_128_GCM_SHA256 => "ARIA128-GCM-SHA256"@,
            TLSCipherSuite::TLS_RSA_WITH_ARIA_256_GCM_SHA384 => "ARIA256-GCM-SHA384"@,
            TLSCipherSuite::TLS_DHE_RSA_WITH_ARIA_128_GCM_SHA256 => "DHE-RSA-ARIA128-GCM-SHA256"@,
            TLSCipherSuite::TLS_DHE_RSA_WITH_ARIA_256_GCM_SHA384 => "DHE-RSA-ARIA256-GCM-SHA384"@,
            TLSCipherSuite::TLS_DHE_DSS_WITH_ARIA_128_GCM_SHA256 => "DHE-DSS-ARIA128-GCM-SHA256"@,
            TLSCipherSuite::TLS_DHE_DSS_WITH_ARIA_256_GCM_SHA384 => "DHE-DSS-ARIA256-GCM-SHA384"@,
            TLSCipherSuite::TLS_ECDHE_ECDSA_WITH_ARIA_128_GCM_SHA256 => "ECDHE-ECDSA-ARIA128-GCM-SHA256"@,
            TLSCipherSuite::TLS_ECDHE_ECDSA_WITH_ARIA_256_GCM_SHA384 => "ECDHE-ECDSA-ARIA256-GCM-SHA384"@,
            TLSCipherSuite::TLS_ECDHE_RSA_WITH_ARIA_128_GCM_SHA256 => "ECDHE-ARIA128-GCM-SHA256"@,
            TLSCipherSuite::TLS_ECDHE_RSA_WITH_ARIA_256_GCM_SHA384 => "ECDHE-ARIA256-GCM-SHA384"@,
            TLSCipherSuite::TLS_PSK_WITH_ARIA_128_GCM_SHA256 => "PSK-ARIA128-GCM-SHA256"@,
            TLSCipherSuite::TLS_PSK_WITH_ARIA_256_GCM_SHA384 => "PSK-ARIA256-GCM-SHA384"@,
            TLSCipherSuite::TLS_DHE_PSK_WITH_ARIA_128_GCM_SHA256 => "DHE-PSK-ARIA128-GCM-SHA256"@,
            TLSCipherSuite::TLS_DHE_PSK_WITH_ARIA_256_GCM_SHA384 => "DHE-PSK-ARIA256-GCM-SHA384"@,
            TLSCipherSuite::TLS_RSA_PSK_WITH_ARIA_128_GCM_SHA256 => "RSA-PSK-ARIA128-GCM-SHA256"@,
            TLSCipherSuite::TLS_RSA_PSK_WITH_ARIA_256_GCM_SHA384 => "RSA-PSK-ARIA256-GCM-SHA384"@,
            TLSCipherSuite::TLS_ECDHE_ECDSA_WITH_CAMELLIA_128_CBC_SHA256 => "ECDHE-ECDSA-CAMELLIA128-SHA256"@,
            TLSCipherSuite::TLS_ECDHE_ECDSA_WITH_CAMELLIA_256_CBC_SHA384 => "ECDHE-ECDSA-CAMELLIA256-SHA384"@,
            TLSCipherSuite::TLS_ECDH_ECDSA_WITH_CAMELLIA_128_CBC_SHA256 => "ECDH-ECDSA-CAMELLIA128-SHA256"@,
            TLSCipherSuite::TLS_ECDH_ECDSA_WITH_CAMELLIA_256_CBC_SHA384 => "ECDH-ECDSA-CAMELLIA256-SHA384"@,
            TLSCipherSuite::TLS_ECDHE_RSA_WITH_CAMELLIA_128_CBC_SHA256 => "ECDHE-RSA-CAMELLIA128-SHA256"@,
            TLSCipherSuite::TLS_ECDHE_RSA_WITH_CAMELLIA_256_CBC_SHA384 => "ECDHE-RSA-CAMELLIA256-SHA384"@,
            TLSCipherSuite::TLS_ECDH_RSA_WITH_CAMELLIA_128_CBC_SHA256 => "ECDH-RSA-CAMELLIA128-SHA256"@,
            TLSCipherSuite::TLS_ECDH_RSA_WITH_CAMELLIA_256_CBC_SHA384 => "ECDH-RSA-CAMELLIA256-SHA384"@,
            TLSCipherSuite::TLS_PSK_WITH_CAMELLIA_128_CBC_SHA256 => "PSK-CAMELLIA128-SHA256"@,
            TLSCipherSuite::TLS_PSK_WITH_CAMELLIA_256_CBC_SHA384 => "PSK-CAMELLIA256-SHA384"@,
            TLSCipherSuite::TLS_DHE_PSK_WITH_CAMELLIA_128_CBC_SHA256 => "DHE-PSK-CAMELLIA128-SHA256"@,
            TLSCipherSuite::TLS_DHE_PSK_WITH_CAMELLIA_256_CBC_SHA384 => "DHE-PSK-CAMELLIA256-SHA384"@,
            TLSCipherSuite::TLS_RSA_PSK_WITH_CAMELLIA_128_CBC_SHA256 => "RSA-PSK-CAMELLIA128-SHA256"@,
            TLSCipherSuite::TLS_RSA_PSK_WITH_CAMELLIA_256_CBC_SHA384 => "RSA-PSK-CAMELLIA256-SHA384"@,
            TLSCipherSuite::TLS_ECDHE_PSK_WITH_CAMELLIA_128_CBC_SHA256 => "ECDHE-PSK-CAMELLIA128-SHA256"@,
            TLSCipherSuite::TLS_ECDHE_PSK_WITH_CAMELLIA_256_CBC_SHA384 => "ECDHE-PSK-CAMELLIA256-SHA384"@,
            TLSCipherSuite::TLS_RSA_WITH_AES_128_CCM => "AES128-CCM"@,
            TLSCipherSuite::TLS_RSA_WITH_AES_256_CCM => "AES256-CCM"@,
            TLSCipherSuite::TLS_DHE_RSA_WITH_AES_128_CCM => "DHE-RSA-AES128-CCM"@,
            TLSCipherSuite::TLS_DHE_RSA_WITH_AES_256_CCM => "DHE-RSA-AES256-CCM"@,
            TLSCipherSuite::TLS_RSA_WITH_AES_128_CCM_8 => "AES128-CCM8"@,
            TLSCipherSuite::TLS_RSA_WITH_AES_256_CCM_8 => "AES256-CCM8"@,
            TLSCipherSuite::TLS_DHE_RSA_WITH_AES_128_CCM_8 => "DHE-RSA-AES128-CCM8"@,
            TLSCipherSuite::TLS_DHE_RSA_WITH_AES_256_CCM_8 => "DHE-RSA-AES256-CCM8"@,
            TLSCipherSuite::TLS_PSK_WITH_AES_128_CCM => "PSK-AES128-CCM"@,
            TLSCipherSuite::TLS_PSK_WITH_AES_256_CCM => "PSK-AES256-CCM"@,
            TLSCipherSuite::TLS_DHE_PSK_WITH_AES_128_CCM => "DHE-PSK-AES128-CCM"@,
            TLSCipherSuite::TLS_DHE_PSK_WITH_AES_256_CCM => "DHE-PSK-AES256-CCM"@,
            TLSCipherSuite::TLS_PSK_WITH_AES_128_CCM_8 => "PSK-AES128-CCM8"@,
            TLSCipherSuite::TLS_PSK_WITH_AES_256_CCM_8 => "PSK-AES256-CCM8"@,
            TLSCipherSuite::TLS_PSK_DHE_WITH_AES_128_CCM_8 => "DHE-PSK-AES128-CCM8"@,
            TLSCipherSuite::TLS_PSK_DHE_WITH_AES_256_CCM_8 => "DHE-PSK-AES256-CCM8"@,
            TLSCipherSuite::TLS_ECDHE_ECDSA_WITH_AES_128_CCM => "ECDHE-ECDSA-AES128-CCM"@,
            TLSCipherSuite::TLS_ECDHE_ECDSA_WITH_AES_256_CCM => "ECDHE-ECDSA-AES256-CCM"@,
            TLSCipherSuite::TLS_ECDHE_ECDSA_WITH_AES_128_CCM_8 => "ECDHE-ECDSA-AES128-CCM8"@,
            TLSCipherSuite::TLS_ECDHE_ECDSA_WITH_AES_256_CCM_8 => "ECDHE-ECDSA-AES256-CCM8"@,
            TLSCipherSuite::OLD_TLS_ECDHE_RSA_WITH_CHACHA20_POLY1305_SHA256 => "ECDHE-RSA-CHACHA20-POLY1305-OLD"@,
            TLSCipherSuite::OLD_TLS_ECDHE_ECDSA_WITH_CHACHA20_POLY1305_SHA256 => "ECDHE-ECDSA-CHACHA20-POLY1305-OLD"@,
            TLSCipherSuite::OLD_TLS_DHE_RSA_WITH_CHACHA20_POLY1305_SHA256 => "DHE-RSA-CHACHA20-POLY1305-OLD"@,
            TLSCipherSuite::TLS_ECDHE_RSA_WITH_CHACHA20_POLY1305_SHA256 => "ECDHE-RSA-CHACHA20-POLY1305"@,
            TLSCipherSuite::TLS_ECDHE_ECDSA_WITH_CHACHA20_POLY1305_SHA256 => "ECDHE-ECDSA-CHACHA20-POLY1305"@,
            TLSCipherSuite::TLS_DHE_RSA_WITH_CHACHA20_POLY1305_SHA256 => "DHE-RSA-CHACHA20-POLY1305"@,
            TLSCipherSuite::TLS_PSK_WITH_CHACHA20_POLY1305_SHA256 => "PSK-CHACHA20-POLY1305"@,
            TLSCipherSuite::TLS_ECDHE_PSK_WITH_CHACHA20_POLY1305_SHA256 => "ECDHE-PSK-CHACHA20-POLY1305"@,
            TLSCipherSuite::TLS_DHE_PSK_WITH_CHACHA20_POLY1305_SHA256 => "DHE-PSK-CHACHA20-POLY1305"@,
            TLSCipherSuite::TLS_RSA_PSK_WITH_CHACHA20_POLY1305_SHA256 => "RSA-PSK-CHACHA20-POLY1305"@,
        }
    }

    /// The RFC identifier of the suite.
    pub open spec fn spec_rfc_name(self) -> Seq<char> {
        match self {
            TLSCipherSuite::TLS_RSA_WITH_NULL_MD5 => "TLS_RSA_WITH_NULL_MD5"@,
            TLSCipherSuite::TLS_RSA_WITH_NULL_SHA => "TLS_RSA_WITH_NULL_SHA"@,
            TLSCipherSuite::TLS_RSA_EXPORT_WITH_RC4_40_MD5 => "TLS_RSA_EXPORT_WITH_RC4_40_MD5"@,
            TLSCipherSuite::TLS_RSA_WITH_RC4_128_MD5 => "TLS_RSA_WITH_RC4_128_MD5"@,
            TLSCipherSuite::TLS_RSA_WITH_RC4_128_SHA => "TLS_RSA_WITH_RC4_128_SHA"@,
            TLSCipherSuite::TLS_RSA_EXPORT_WITH_RC2_CBC_40_MD5 => "TLS_RSA_EXPORT_WITH_RC2_CBC_40_MD5"@,
            TLSCipherSuite::TLS_RSA_WITH_IDEA_CBC_SHA => "TLS_RSA_WITH_IDEA_CBC_SHA"@,
            TLSCipherSuite::TLS_RSA_EXPORT_WITH_DES40_CBC_SHA => "TLS_RSA_EXPORT_WITH_DES40_CBC_SHA"@,
            TLSCipherSuite::TLS_RSA_WITH_DES_CBC_SHA => "TLS_RSA_WITH_DES_CBC_SHA"@,
            TLSCipherSuite::TLS_RSA_WITH_3DES_EDE_CBC_SHA => "TLS_RSA_WITH_3DES_EDE_CBC_SHA"@,
            TLSCipherSuite::TLS_DH_DSS_EXPORT_WITH_DES40_CBC_SHA => "TLS_DH_DSS_EXPORT_WITH_DES40_CBC_SHA"@,
            TLSCipherSuite::TLS_DH_DSS_WITH_DES_CBC_SHA => "TLS_DH_DSS_WITH_DES_CBC_SHA"@,
            TLSCipherSuite::TLS_DH_DSS_WITH_3DES_EDE_CBC_SHA => "TLS_DH_DSS_WITH_3DES_EDE_CBC_SHA"@,
            TLSCipherSuite::TLS_DH_RSA_EXPORT_WITH_DES40_CBC_SHA => "TLS_DH_RSA_EXPORT_WITH_DES40_CBC_SHA"@,
            TLSCipherSuite::TLS_DH_RSA_WITH_DES_CBC_SHA => "TLS_DH_RSA_WITH_DES_CBC_SHA"@,
            TLSCipherSuite::TLS_DH_RSA_WITH_3DES_EDE_CBC_SHA => "TLS_DH_RSA_WITH_3DES_EDE_CBC_SHA"@,
            TLSCipherSuite::TLS_DHE_DSS_EXPORT_WITH_DES40_CBC_SHA => "TLS_DHE_DSS_EXPORT_WITH_DES40_CBC_SHA"@,
            TLSCipherSuite::TLS_DHE_DSS_WITH_DES_CBC_SHA => "TLS_DHE_DSS_WITH_DES_CBC_SHA"@,
            TLSCipherSuite::TLS_DHE_DSS_WITH_3DES_EDE_CBC_SHA => "TLS_DHE_DSS_WITH_3DES_EDE_CBC_SHA"@,
            TLSCipherSuite::TLS_DHE_RSA_EXPORT_WITH_DES40_CBC_SHA => "TLS_DHE_RSA_EXPORT_WITH_DES40_CBC_SHA"@,
            TLSCipherSuite::TLS_DHE_RSA_WITH_DES_CBC_SHA => "TLS_DHE_RSA_WITH_DES_CBC_SHA"@,
            TLSCipherSuite::TLS_DHE_RSA_WITH_3DES_EDE_CBC_SHA => "TLS_DHE_RSA_WITH_3DES_EDE_CBC_SHA"@,
            TLSCipherSuite::TLS_DH_anon_EXPORT_WITH_RC4_40_MD5 => "TLS_DH_anon_EXPORT_WITH_RC4_40_MD5"@,
            TLSCipherSuite::TLS_DH_anon_WITH_RC4_128_MD5 => "TLS_DH_anon_WITH_RC4_128_MD5"@,
            TLSCipherSuite::TLS_DH_anon_EXPORT_WITH_DES40_CBC_SHA => "TLS_DH_anon_EXPORT_WITH_DES40_CBC_SHA"@,
            TLSCipherSuite::TLS_DH_anon_WITH_DES_CBC_SHA => "TLS_DH_anon_WITH_DES_CBC_SHA"@,
            TLSCipherSuite::TLS_DH_anon_WITH_3DES_EDE_CBC_SHA => "TLS_DH_anon_WITH_3DES_EDE_CBC_SHA"@,
            TLSCipherSuite::TLS_KRB5_WITH_DES_CBC_SHA => "TLS_KRB5_WITH_DES_CBC_SHA"@,
            TLSCipherSuite::TLS_KRB5_WITH_3DES_EDE_CBC_SHA => "TLS_KRB5_WITH_3DES_EDE_CBC_SHA"@,
            TLSCipherSuite::TLS_KRB5_WITH_RC4_128_SHA => "TLS_KRB5_WITH_RC4_128_SHA"@,
            TLSCipherSuite::TLS_KRB5_WITH_IDEA_CBC_SHA => "TLS_KRB5_WITH_IDEA_CBC_SHA"@,
            TLSCipherSuite::TLS_KRB5_WITH_DES_CBC_MD5 => "TLS_KRB5_WITH_DES_CBC_MD5"@,
            TLSCipherSuite::TLS_KRB5_WITH_3DES_EDE_CBC_MD5 => "TLS_KRB5_WITH_3DES_EDE_CBC_MD5"@,
            TLSCipherSuite::TLS_KRB5_WITH_RC4_128_MD5 => "TLS_KRB5_WITH_RC4_128_MD5"@,
            TLSCipherSuite::TLS_KRB5_WITH_IDEA_CBC_MD5 => "TLS_KRB5_WITH_IDEA_CBC_MD5"@,
            TLSCipherSuite::TLS_KRB5_EXPORT_WITH_DES_CBC_40_SHA => "TLS_KRB5_EXPORT_WITH_DES_CBC_40_SHA"@,
            TLSCipherSuite::TLS_KRB5_EXPORT_WITH_RC2_CBC_40_SHA => "TLS_KRB5_EXPORT_WITH_RC2_CBC_40_SHA"@,
            TLSCipherSuite::TLS_KRB5_EXPORT_WITH_RC4_40_SHA => "TLS_KRB5_EXPORT_WITH_RC4_40_SHA"@,
            TLSCipherSuite::TLS_KRB5_EXPORT_WITH_DES_CBC_40_MD5 => "TLS_KRB5_EXPORT_WITH_DES_CBC_40_MD5"@,
            TLSCipherSuite::TLS_KRB5_EXPORT_WITH_RC2_CBC_40_MD5 => "TLS_KRB5_EXPORT_WITH_RC2_CBC_40_MD5"@,
            TLSCipherSuite::TLS_KRB5_EXPORT_WITH_RC4_40_MD5 => "TLS_KRB5_EXPORT_WITH_RC4_40_MD5"@,
            TLSCipherSuite::TLS_PSK_WITH_NULL_SHA => "TLS_PSK_WITH_NULL_SHA"@,
            TLSCipherSuite::TLS_DHE_PSK_WITH_NULL_SHA => "TLS_DHE_PSK_WITH_NULL_SHA"@,
            TLSCipherSuite::TLS_RSA_PSK_WITH_NULL_SHA => "TLS_RSA_PSK_WITH_NULL_SHA"@,
            TLSCipherSuite::TLS_RSA_WITH_AES_128_CBC_SHA => "TLS_RSA_WITH_AES_128_CBC_SHA"@,
            TLSCipherSuite::TLS_DH_DSS_WITH_AES_128_CBC_SHA => "TLS_DH_DSS_WITH_AES_128_CBC_SHA"@,
            TLSCipherSuite::TLS_DH_RSA_WITH_AES_128_CBC_SHA => "TLS_DH_RSA_WITH_AES_128_CBC_SHA"@,
            TLSCipherSuite::TLS_DHE_DSS_WITH_AES_128_CBC_SHA => "TLS_DHE_DSS_WITH_AES_128_CBC_SHA"@,
            TLSCipherSuite::TLS_DHE_RSA_WITH_AES_128_CBC_SHA => "TLS_DHE_RSA_WITH_AES_128_CBC_SHA"@,
            TLSCipherSuite::TLS_DH_anon_WITH_AES_128_CBC_SHA => "TLS_DH_anon_WITH_AES_128_CBC_SHA"@,
            TLSCipherSuite::TLS_RSA_WITH_AES_256_CBC_SHA => "TLS_RSA_WITH_AES_256_CBC_SHA"@,
            TLSCipherSuite::TLS_DH_DSS_WITH_AES_256_CBC_SHA => "TLS_DH_DSS_WITH_AES_256_CBC_SHA"@,
            TLSCipherSuite::TLS_DH_RSA_WITH_AES_256_CBC_SHA => "TLS_DH_RSA_WITH_AES_256_CBC_SHA"@,
            TLSCipherSuite::TLS_DHE_DSS_WITH_AES_256_CBC_SHA => "TLS_DHE_DSS_WITH_AES_256_CBC_SHA"@,
            TLSCipherSuite::TLS_DHE_RSA_WITH_AES_256_CBC_SHA => "TLS_DHE_RSA_WITH_AES_256_CBC_SHA"@,
            TLSCipherSuite::TLS_DH_anon_WITH_AES_256_CBC_SHA => "TLS_DH_anon_WITH_AES_256_CBC_SHA"@,
            TLSCipherSuite::TLS_RSA_WITH_NULL_SHA256 => "TLS_RSA_WITH_NULL_SHA256"@,
            TLSCipherSuite::TLS_RSA_WITH_AES_128_CBC_SHA256 => "TLS_RSA_WITH_AES_128_CBC_SHA256"@,
            TLSCipherSuite::TLS_RSA_WITH_AES_256_CBC_SHA256 => "TLS_RSA_WITH_AES_256_CBC_SHA256"@,
            TLSCipherSuite::TLS_DH_DSS_WITH_AES_128_CBC_SHA256 => "TLS_DH_DSS_WITH_AES_128_CBC_SHA256"@,
            TLSCipherSuite::TLS_DH_RSA_WITH_AES_128_CBC_SHA256 => "TLS_DH_RSA_WITH_AES_128_CBC_SHA256"@,
            TLSCipherSuite::TLS_DHE_DSS_WITH_AES_128_CBC_SHA256 => "TLS_DHE_DSS_WITH_AES_128_CBC_SHA256"@,
            TLSCipherSuite::TLS_RSA_WITH_CAMELLIA_128_CBC_SHA => "TLS_RSA_WITH_CAMELLIA_128_CBC_SHA"@,
            TLSCipherSuite::TLS_DH_DSS_WITH_CAMELLIA_128_CBC_SHA => "TLS_DH_DSS_WITH_CAMELLIA_128_CBC_SHA"@,
            TLSCipherSuite::TLS_DH_RSA_WITH_CAMELLIA_128_CBC_SHA => "TLS_DH_RSA_WITH_CAMELLIA_128_CBC_SHA"@,
            TLSCipherSuite::TLS_DHE_DSS_WITH_CAMELLIA_128_CBC_SHA => "TLS_DHE_DSS_WITH_CAMELLIA_128_CBC_SHA"@,
            TLSCipherSuite::TLS_DHE_RSA_WITH_CAMELLIA_128_CBC_SHA => "TLS_DHE_RSA_WITH_CAMELLIA_128_CBC_SHA"@,
            TLSCipherSuite::TLS_DH_anon_WITH_CAMELLIA_128_CBC_SHA => "TLS_DH_anon_WITH_CAMELLIA_128_CBC_SHA"@,
            TLSCipherSuite::TLS_RSA_EXPORT1024_WITH_RC4_56_MD5 => "TLS_RSA_EXPORT1024_WITH_RC4_56_MD5"@,
            TLSCipherSuite::TLS_RSA_EXPORT1024_WITH_RC2_CBC_56_MD5 => "TLS_RSA_EXPORT1024_WITH_RC2_CBC_56_MD5"@,
            TLSCipherSuite::TLS_RSA_EXPORT1024_WITH_DES_CBC_SHA => "TLS_RSA_EXPORT1024_WITH_DES_CBC_SHA"@,
            TLSCipherSuite::TLS_DHE_DSS_EXPORT1024_WITH_DES_CBC_SHA => "TLS_DHE_DSS_EXPORT1024_WITH_DES_CBC_SHA"@,
            TLSCipherSuite::TLS_RSA_EXPORT1024_WITH_RC4_56_SHA => "TLS_RSA_EXPORT1024_WITH_RC4_56_SHA"@,
            TLSCipherSuite::TLS_DHE_DSS_EXPORT1024_WITH_RC4_56_SHA => "TLS_DHE_DSS_EXPORT1024_WITH_RC4_56_SHA"@,
            TLSCipherSuite::TLS_DHE_DSS_WITH_RC4_128_SHA => "TLS_DHE_DSS_WITH_RC4_128_SHA"@,
            TLSCipherSuite::TLS_DHE_RSA_WITH_AES_128_CBC_SHA256 => "TLS_DHE_RSA_WITH_AES_128_CBC_SHA256"@,
            TLSCipherSuite::TLS_DH_DSS_WITH_AES_256_CBC_SHA256 => "TLS_DH_DSS_WITH_AES_256_CBC_SHA256"@,
            TLSCipherSuite::TLS_DH_RSA_WITH_AES_256_CBC_SHA256 => "TLS_DH_RSA_WITH_AES_256_CBC_SHA256"@,
            TLSCipherSuite::TLS_DHE_DSS_WITH_AES_256_CBC_SHA256 => "TLS_DHE_DSS_WITH_AES_256_CBC_SHA256"@,
            TLSCipherSuite::TLS_DHE_RSA_WITH_AES_256_CBC_SHA256 => "TLS_DHE_RSA_WITH_AES_256_CBC_SHA256"@,
            TLSCipherSuite::TLS_DH_anon_WITH_AES_128_CBC_SHA256 => "TLS_DH_anon_WITH_AES_128_CBC_SHA256"@,
            TLSCipherSuite::TLS_DH_anon_WITH_AES_256_CBC_SHA256 => "TLS_DH_anon_WITH_AES_256_CBC_SHA256"@,
            TLSCipherSuite::TLS_GOSTR341094_WITH_28147_CNT_IMIT => "TLS_GOSTR341094_WITH_28147_CNT_IMIT"@,
            TLSCipherSuite::TLS_GOSTR341001_WITH_28147_CNT_IMIT => "TLS_GOSTR341001_WITH_28147_CNT_IMIT"@,
            TLSCipherSuite::TLS_GOSTR341094_WITH_NULL_GOSTR3411 => "TLS_GOSTR341094_WITH_NULL_GOSTR3411"@,
            TLSCipherSuite::TLS_GOSTR341001_WITH_NULL_GOSTR3411 => "TLS_GOSTR341001_WITH_NULL_GOSTR3411"@,
            TLSCipherSuite::TLS_RSA_WITH_CAMELLIA_256_CBC_SHA => "TLS_RSA_WITH_CAMELLIA_256_CBC_SHA"@,
            TLSCipherSuite::TLS_DH_DSS_WITH_CAMELLIA_256_CBC_SHA => "TLS_DH_DSS_WITH_CAMELLIA_256_CBC_SHA"@,
            TLSCipherSuite::TLS_DH_RSA_WITH_CAMELLIA_256_CBC_SHA => "TLS_DH_RSA_WITH_CAMELLIA_256_CBC_SHA"@,
            TLSCipherSuite::TLS_DHE_DSS_WITH_CAMELLIA_256_CBC_SHA => "TLS_DHE_DSS_WITH_CAMELLIA_256_CBC_SHA"@,
            TLSCipherSuite::TLS_DHE_RSA_WITH_CAMELLIA_256_CBC_SHA => "TLS_DHE_RSA_WITH_CAMELLIA_256_CBC_SHA"@,
            TLSCipherSuite::TLS_DH_anon_WITH_CAMELLIA_256_CBC_SHA => "TLS_DH_anon_WITH_CAMELLIA_256_CBC_SHA"@,
            TLSCipherSuite::TLS_PSK_WITH_RC4_128_SHA => "TLS_PSK_WITH_RC4_128_SHA"@,
            TLSCipherSuite::TLS_PSK_WITH_3DES_EDE_CBC_SHA => "TLS_PSK_WITH_3DES_EDE_CBC_SHA"@,
            TLSCipherSuite::TLS_PSK_WITH_AES_128_CBC_SHA => "TLS_PSK_WITH_AES_128_CBC_SHA"@,
            TLSCipherSuite::TLS_PSK_WITH_AES_256_CBC_SHA => "TLS_PSK_WITH_AES_256_CBC_SHA"@,
            TLSCipherSuite::TLS_DHE_PSK_WITH_RC4_128_SHA => "TLS_DHE_PSK_WITH_RC4_128_SHA"@,
            TLSCipherSuite::TLS_DHE_PSK_WITH_3DES_EDE_CBC_SHA => "TLS_DHE_PSK_WITH_3DES_EDE_CBC_SHA"@,
            TLSCipherSuite::TLS_DHE_PSK_WITH_AES_128_CBC_SHA => "TLS_DHE_PSK_WITH_AES_128_CBC_SHA"@,
            TLSCipherSuite::TLS_DHE_PSK_WITH_AES_256_CBC_SHA => "TLS_DHE_PSK_WITH_AES_256_CBC_SHA"@,
            TLSCipherSuite::TLS_RSA_PSK_WITH_RC4_128_SHA => "TLS_RSA_PSK_WITH_RC4_128_SHA"@,
            TLSCipherSuite::TLS_RSA_PSK_WITH_3DES_EDE_CBC_SHA => "TLS_RSA_PSK_WITH_3DES_EDE_CBC_SHA"@,
            TLSCipherSuite::TLS_RSA_PSK_WITH_AES_128_CBC_SHA => "TLS_RSA_PSK_WITH_AES_128_CBC_SHA"@,
            TLSCipherSuite::TLS_RSA_PSK_WITH_AES_256_CBC_SHA => "TLS_RSA_PSK_WITH_AES_256_CBC_SHA"@,
            TLSCipherSuite::TLS_RSA_WITH_SEED_CBC_SHA => "TLS_RSA_WITH_SEED_CBC_SHA"@,
            TLSCipherSuite::TLS_DH_DSS_WITH_SEED_CBC_SHA => "TLS_DH_DSS_WITH_SEED_CBC_SHA"@,
            TLSCipherSuite::TLS_DH_RSA_WITH_SEED_CBC_SHA => "TLS_DH_RSA_WITH_SEED_CBC_SHA"@,
            TLSCipherSuite::TLS_DHE_DSS_WITH_SEED_CBC_SHA => "TLS_DHE_DSS_WITH_SEED_CBC_SHA"@,
            TLSCipherSuite::TLS_DHE_RSA_WITH_SEED_CBC_SHA => "TLS_DHE_RSA_WITH_SEED_CBC_SHA"@,
            TLSCipherSuite::TLS_DH_anon_WITH_SEED_CBC_SHA => "TLS_DH_anon_WITH_SEED_CBC_SHA"@,
            TLSCipherSuite::TLS_RSA_WITH_AES_128_GCM_SHA256 => "TLS_RSA_WITH_AES_128_GCM_SHA256"@,
            TLSCipherSuite::TLS_RSA_WITH_AES_256_GCM_SHA384 => "TLS_RSA_WITH_AES_256_GCM_SHA384"@,
            TLSCipherSuite::TLS_DHE_RSA_WITH_AES_128_GCM_SHA256 => "TLS_DHE_RSA_WITH_AES_128_GCM_SHA256"@,
            TLSCipherSuite::TLS_DHE_RSA_WITH_AES_256_GCM_SHA384 => "TLS_DHE_RSA_WITH_AES_256_GCM_SHA384"@,
            TLSCipherSuite::TLS_DH_RSA_WITH_AES_128_GCM_SHA256 => "TLS_DH_RSA_WITH_AES_128_GCM_SHA256"@,
            TLSCipherSuite::TLS_DH_RSA_WITH_AES_256_GCM_SHA384 => "TLS_DH_RSA_WITH_AES_256_GCM_SHA384"@,
            TLSCipherSuite::TLS_DHE_DSS_WITH_AES_128_GCM_SHA256 => "TLS_DHE_DSS_WITH_AES_128_GCM_SHA256"@,
            TLSCipherSuite::TLS_DHE_DSS_WITH_AES_256_GCM_SHA384 => "TLS_DHE_DSS_WITH_AES_256_GCM_SHA384"@,
            TLSCipherSuite::TLS_DH_DSS_WITH_AES_128_GCM_SHA256 => "TLS_DH_DSS_WITH_AES_128_GCM_SHA256"@,
            TLSCipherSuite::TLS_DH_DSS_WITH_AES_256_GCM_SHA384 => "TLS_DH_DSS_WITH_AES_256_GCM_SHA384"@,
            TLSCipherSuite::TLS_DH_anon_WITH_AES_128_GCM_SHA256 => "TLS_DH_anon_WITH_AES_128_GCM_SHA256"@,
            TLSCipherSuite::TLS_DH_anon_WITH_AES_256_GCM_SHA384 => "TLS_DH_anon_WITH_AES_256_GCM_SHA384"@,
            TLSCipherSuite::TLS_PSK_WITH_AES_128_GCM_SHA256 => "TLS_PSK_WITH_AES_128_GCM_SHA256"@,
            TLSCipherSuite::TLS_PSK_WITH_AES_256_GCM_SHA384 => "TLS_PSK_WITH_AES_256_GCM_SHA384"@,
            TLSCipherSuite::TLS_DHE_PSK_WITH_AES_128_GCM_SHA256 => "TLS_DHE_PSK_WITH_AES_128_GCM_SHA256"@,
            TLSCipherSuite::TLS_DHE_PSK_WITH_AES_256_GCM_SHA384 => "TLS_DHE_PSK_WITH_AES_256_GCM_SHA384"@,
            TLSCipherSuite::TLS_RSA_PSK_WITH_AES_128_GCM_SHA256 => "TLS_RSA_PSK_WITH_AES_128_GCM_SHA256"@,
            TLSCipherSuite::TLS_RSA_PSK_WITH_AES_256_GCM_SHA384 => "TLS_RSA_PSK_WITH_AES_256_GCM_SHA384"@,
            TLSCipherSuite::TLS_PSK_WITH_AES_128_CBC_SHA256 => "TLS_PSK_WITH_AES_128_CBC_SHA256"@,
            TLSCipherSuite::TLS_PSK_WITH_AES_256_CBC_SHA384 => "TLS_PSK_WITH_AES_256_CBC_SHA384"@,
            TLSCipherSuite::TLS_PSK_WITH_NULL_SHA256 => "TLS_PSK_WITH_NULL_SHA256"@,
            TLSCipherSuite::TLS_PSK_WITH_NULL_SHA384 => "TLS_PSK_WITH_NULL_SHA384"@,
            TLSCipherSuite::TLS_DHE_PSK_WITH_AES_128_CBC_SHA256 => "TLS_DHE_PSK_WITH_AES_128_CBC_SHA256"@,
            TLSCipherSuite::TLS_DHE_PSK_WITH_AES_256_CBC_SHA384 => "TLS_DHE_PSK_WITH_AES_256_CBC_SHA384"@,
            TLSCipherSuite::TLS_DHE_PSK_WITH_NULL_SHA256 => "TLS_DHE_PSK_WITH_NULL_SHA256"@,
            TLSCipherSuite::TLS_DHE_PSK_WITH_NULL_SHA384 => "TLS_DHE_PSK_WITH_NULL_SHA384"@,
            TLSCipherSuite::TLS_RSA_PSK_WITH_AES_128_CBC_SHA256 => "TLS_RSA_PSK_WITH_AES_128_CBC_SHA256"@,
            TLSCipherSuite::TLS_RSA_PSK_WITH_AES_256_CBC_SHA384 => "TLS_RSA_PSK_WITH_AES_256_CBC_SHA384"@,
            TLSCipherSuite::TLS_RSA_PSK_WITH_NULL_SHA256 => "TLS_RSA_PSK_WITH_NULL_SHA256"@,
            TLSCipherSuite::TLS_RSA_PSK_WITH_NULL_SHA384 => "TLS_RSA_PSK_WITH_NULL_SHA384"@,
            TLSCipherSuite::TLS_RSA_WITH_CAMELLIA_128_CBC_SHA256 => "TLS_RSA_WITH_CAMELLIA_128_CBC_SHA256"@,
            TLSCipherSuite::TLS_DH_DSS_WITH_CAMELLIA_128_CBC_SHA256 => "TLS_DH_DSS_WITH_CAMELLIA_128_CBC_SHA256"@,
            TLSCipherSuite::TLS_DH_RSA_WITH_CAMELLIA_128_CBC_SHA256 => "TLS_DH_RSA_WITH_CAMELLIA_128_CBC_SHA256"@,
            TLSCipherSuite::TLS_DHE_DSS_WITH_CAMELLIA_128_CBC_SHA256 => "TLS_DHE_DSS_WITH_CAMELLIA_128_CBC_SHA256"@,
            TLSCipherSuite::TLS_DHE_RSA_WITH_CAMELLIA_128_CBC_SHA256 => "TLS_DHE_RSA_WITH_CAMELLIA_128_CBC_SHA256"@,
            TLSCipherSuite::TLS_DH_anon_WITH_CAMELLIA_128_CBC_SHA256 => "TLS_DH_anon_WITH_CAMELLIA_128_CBC_SHA256"@,
            TLSCipherSuite::TLS_RSA_WITH_CAMELLIA_256_CBC_SHA256 => "TLS_RSA_WITH_CAMELLIA_256_CBC_SHA256"@,
            TLSCipherSuite::TLS_DH_DSS_WITH_CAMELLIA_256_CBC_SHA256 => "TLS_DH_DSS_WITH_CAMELLIA_256_CBC_SHA256"@,
            TLSCipherSuite::TLS_DH_RSA_WITH_CAMELLIA_256_CBC_SHA256 => "TLS_DH_RSA_WITH_CAMELLIA_256_CBC_SHA256"@,
            TLSCipherSuite::TLS_DHE_DSS_WITH_CAMELLIA_256_CBC_SHA256 => "TLS_DHE_DSS_WITH_CAMELLIA_256_CBC_SHA256"@,
            TLSCipherSuite::TLS_DHE_RSA_WITH_CAMELLIA_256_CBC_SHA256 => "TLS_DHE_RSA_WITH_CAMELLIA_256_CBC_SHA256"@,
            TLSCipherSuite::TLS_DH_anon_WITH_CAMELLIA_256_CBC_SHA256 => "TLS_DH_anon_WITH_CAMELLIA_256_CBC_SHA256"@,
            TLSCipherSuite::TLS_AES_128_GCM_SHA256 => "TLS_AES_128_GCM_SHA256"@,
            TLSCipherSuite::TLS_AES_256_GCM_SHA384 => "TLS_AES_256_GCM_SHA384"@,
            TLSCipherSuite::TLS_CHACHA20_POLY1305_SHA256 => "TLS_CHACHA20_POLY1305_SHA256"@,
            TLSCipherSuite::TLS_AES_128_CCM_SHA256 => "TLS_AES_128_CCM_SHA256"@,
            TLSCipherSuite::TLS_AES_128_CCM_8_SHA256 => "TLS_AES_128_CCM_8_SHA256"@,
            TLSCipherSuite::TLS_ECDH_ECDSA_WITH_NULL_SHA => "TLS_ECDH_ECDSA_WITH_NULL_SHA"@,
            TLSCipherSuite::TLS_ECDH_ECDSA_WITH_RC4_128_SHA => "TLS_ECDH_ECDSA_WITH_RC4_128_SHA"@,
            TLSCipherSuite::TLS_ECDH_ECDSA_WITH_3DES_EDE_CBC_SHA => "TLS_ECDH_ECDSA_WITH_3DES_EDE_CBC_SHA"@,
            TLSCipherSuite::TLS_ECDH_ECDSA_WITH_AES_128_CBC_SHA => "TLS_ECDH_ECDSA_WITH_AES_128_CBC_SHA"@,
            TLSCipherSuite::TLS_ECDH_ECDSA_WITH_AES_256_CBC_SHA => "TLS_ECDH_ECDSA_WITH_AES_256_CBC_SHA"@,
            TLSCipherSuite::TLS_ECDHE_ECDSA_WITH_NULL_SHA => "TLS_ECDHE_ECDSA_WITH_NULL_SHA"@,
            TLSCipherSuite::TLS_ECDHE_ECDSA_WITH_RC4_128_SHA => "TLS_ECDHE_ECDSA_WITH_RC4_128_SHA"@,
            TLSCipherSuite::TLS_ECDHE_ECDSA_WITH_3DES_EDE_CBC_SHA => "TLS_ECDHE_ECDSA_WITH_3DES_EDE_CBC_SHA"@,
            TLSCipherSuite::TLS_ECDHE_ECDSA_WITH_AES_128_CBC_SHA => "TLS_ECDHE_ECDSA_WITH_AES_128_CBC_SHA"@,
            TLSCipherSuite::TLS_ECDHE_ECDSA_WITH_AES_256_CBC_SHA => "TLS_ECDHE_ECDSA_WITH_AES_256_CBC_SHA"@,
            TLSCipherSuite::TLS_ECDH_RSA_WITH_NULL_SHA => "TLS_ECDH_RSA_WITH_NULL_SHA"@,
            TLSCipherSuite::TLS_ECDH_RSA_WITH_RC4_128_SHA => "TLS_ECDH_RSA_WITH_RC4_128_SHA"@,
            TLSCipherSuite::TLS_ECDH_RSA_WITH_3DES_EDE_CBC_SHA => "TLS_ECDH_RSA_WITH_3DES_EDE_CBC_SHA"@,
            TLSCipherSuite::TLS_ECDH_RSA_WITH_AES_128_CBC_SHA => "TLS_ECDH_RSA_WITH_AES_128_CBC_SHA"@,
            TLSCipherSuite::TLS_ECDH_RSA_WITH_AES_256_CBC_SHA => "TLS_ECDH_RSA_WITH_AES_256_CBC_SHA"@,
            TLSCipherSuite::TLS_ECDHE_RSA_WITH_NULL_SHA => "TLS_ECDHE_RSA_WITH_NULL_SHA"@,
            TLSCipherSuite::TLS_ECDHE_RSA_WITH_RC4_128_SHA => "TLS_ECDHE_RSA_WITH_RC4_128_SHA"@,
            TLSCipherSuite::TLS_ECDHE_RSA_WITH_3DES_EDE_CBC_SHA => "TLS_ECDHE_RSA_WITH_3DES_EDE_CBC_SHA"@,
            TLSCipherSuite::TLS_ECDHE_RSA_WITH_AES_128_CBC_SHA => "TLS_ECDHE_RSA_WITH_AES_128_CBC_SHA"@,
            TLSCipherSuite::TLS_ECDHE_RSA_WITH_AES_256_CBC_SHA => "TLS_ECDHE_RSA_WITH_AES_256_CBC_SHA"@,
            TLSCipherSuite::TLS_ECDH_anon_WITH_NULL_SHA => "TLS_ECDH_anon_WITH_NULL_SHA"@,
            TLSCipherSuite::TLS_ECDH_anon_WITH_RC4_128_SHA => "TLS_ECDH_anon_WITH_RC4_128_SHA"@,
            TLSCipherSuite::TLS_ECDH_anon_WITH_3DES_EDE_CBC_SHA => "TLS_ECDH_anon_WITH_3DES_EDE_CBC_SHA"@,
            TLSCipherSuite::TLS_ECDH_anon_WITH_AES_128_CBC_SHA => "TLS_ECDH_anon_WITH_AES_128_CBC_SHA"@,
            TLSCipherSuite::TLS_ECDH_anon_WITH_AES_256_CBC_SHA => "TLS_ECDH_anon_WITH_AES_256_CBC_SHA"@,
            TLSCipherSuite::TLS_SRP_SHA_WITH_3DES_EDE_CBC_SHA => "TLS_SRP_SHA_WITH_3DES_EDE_CBC_SHA"@,
            TLSCipherSuite::TLS_SRP_SHA_RSA_WITH_3DES_EDE_CBC_SHA => "TLS_SRP_SHA_RSA_WITH_3DES_EDE_CBC_SHA"@,
            TLSCipherSuite::TLS_SRP_SHA_DSS_WITH_3DES_EDE_CBC_SHA => "TLS_SRP_SHA_DSS_WITH_3DES_EDE_CBC_SHA"@,
            TLSCipherSuite::TLS_SRP_SHA_WITH_AES_128_CBC_SHA => "TLS_SRP_SHA_WITH_AES_128_CBC_SHA"@,
            TLSCipherSuite::TLS_SRP_SHA_RSA_WITH_AES_128_CBC_SHA => "TLS_SRP_SHA_RSA_WITH_AES_128_CBC_SHA"@,
            TLSCipherSuite::TLS_SRP_SHA_DSS_WITH_AES_128_CBC_SHA => "TLS_SRP_SHA_DSS_WITH_AES_128_CBC_SHA"@,
            TLSCipherSuite::TLS_SRP_SHA_WITH_AES_256_CBC_SHA => "TLS_SRP_SHA_WITH_AES_256_CBC_SHA"@,
            TLSCipherSuite::TLS_SRP_SHA_RSA_WITH_AES_256_CBC_SHA => "TLS_SRP_SHA_RSA_WITH_AES_256_CBC_SHA"@,
            TLSCipherSuite::TLS_SRP_SHA_DSS_WITH_AES_256_CBC_SHA => "TLS_SRP_SHA_DSS_WITH_AES_256_CBC_SHA"@,
            TLSCipherSuite::TLS_ECDHE_ECDSA_WITH_AES_128_CBC_SHA256 => "TLS_ECDHE_ECDSA_WITH_AES_128_CBC_SHA256"@,
            TLSCipherSuite::TLS_ECDHE_ECDSA_WITH_AES_256_CBC_SHA384 => "TLS_ECDHE_ECDSA_WITH_AES_256_CBC_SHA384"@,
            TLSCipherSuite::TLS_ECDH_ECDSA_WITH_AES_128_CBC_SHA256 => "TLS_ECDH_ECDSA_WITH_AES_128_CBC_SHA256"@,
            TLSCipherSuite::TLS_ECDH_ECDSA_WITH_AES_256_CBC_SHA384 => "TLS_ECDH_ECDSA_WITH_AES_256_CBC_SHA384"@,
            TLSCipherSuite::TLS_ECDHE_RSA_WITH_AES_128_CBC_SHA256 => "TLS_ECDHE_RSA_WITH_AES_128_CBC_SHA256"@,
            TLSCipherSuite::TLS_ECDHE_RSA_WITH_AES_256_CBC_SHA384 => "TLS_ECDHE_RSA_WITH_AES_256_CBC_SHA384"@,
            TLSCipherSuite::TLS_ECDH_RSA_WITH_AES_128_CBC_SHA256 => "TLS_ECDH_RSA_WITH_AES_128_CBC_SHA256"@,
            TLSCipherSuite::TLS_ECDH_RSA_WITH_AES_256_CBC_SHA384 => "TLS_ECDH_RSA_WITH_AES_256_CBC_SHA384"@,
            TLSCipherSuite::TLS_ECDHE_ECDSA_WITH_AES_128_GCM_SHA256 => "TLS_ECDHE_ECDSA_WITH_AES_128_GCM_SHA256"@,
            TLSCipherSuite::TLS_ECDHE_ECDSA_WITH_AES_256_GCM_SHA384 => "TLS_ECDHE_ECDSA_WITH_AES_256_GCM_SHA384"@,
            TLSCipherSuite::TLS_ECDH_ECDSA_WITH_AES_128_GCM_SHA256 => "TLS_ECDH_ECDSA_WITH_AES_128_GCM_SHA256"@,
            TLSCipherSuite::TLS_ECDH_ECDSA_WITH_AES_256_GCM_SHA384 => "TLS_ECDH_ECDSA_WITH_AES_256_GCM_SHA384"@,
            TLSCipherSuite::TLS_ECDHE_RSA_WITH_AES_128_GCM_SHA256 => "TLS_ECDHE_RSA_WITH_AES_128_GCM_SHA256"@,
            TLSCipherSuite::TLS_ECDHE_RSA_WITH_AES_256_GCM_SHA384 => "TLS_ECDHE_RSA_WITH_AES_256_GCM_SHA384"@,
            TLSCipherSuite::TLS_ECDH_RSA_WITH_AES_128_GCM_SHA256 => "TLS_ECDH_RSA_WITH_AES_128_GCM_SHA256"@,
            TLSCipherSuite::TLS_ECDH_RSA_WITH_AES_256_GCM_SHA384 => "TLS_ECDH_RSA_WITH_AES_256_GCM_SHA384"@,
            TLSCipherSuite::TLS_ECDHE_PSK_WITH_RC4_128_SHA => "TLS_ECDHE_PSK_WITH_RC4_128_SHA"@,
            TLSCipherSuite::TLS_ECDHE_PSK_WITH_3DES_EDE_CBC_SHA => "TLS_ECDHE_PSK_WITH_3DES_EDE_CBC_SHA"@,
            TLSCipherSuite::TLS_ECDHE_PSK_WITH_AES_128_CBC_SHA => "TLS_ECDHE_PSK_WITH_AES_128_CBC_SHA"@,
            TLSCipherSuite::TLS_ECDHE_PSK_WITH_AES_256_CBC_SHA => "TLS_ECDHE_PSK_WITH_AES_256_CBC_SHA"@,
            TLSCipherSuite::TLS_ECDHE_PSK_WITH_AES_128_CBC_SHA256 => "TLS_ECDHE_PSK_WITH_AES_128_CBC_SHA256"@,
            TLSCipherSuite::TLS_ECDHE_PSK_WITH_AES_256_CBC_SHA384 => "TLS_ECDHE_PSK_WITH_AES_256_CBC_SHA384"@,
            TLSCipherSuite::TLS_ECDHE_PSK_WITH_NULL_SHA => "TLS_ECDHE_PSK_WITH_NULL_SHA"@,
            TLSCipherSuite::TLS_ECDHE_PSK_WITH_NULL_SHA256 => "TLS_ECDHE_PSK_WITH_NULL_SHA256"@,
            TLSCipherSuite::TLS_ECDHE_PSK_WITH_NULL_SHA384 => "TLS_ECDHE_PSK_WITH_NULL_SHA384"@,
            TLSCipherSuite::TLS_RSA_WITH_ARIA_128_GCM_SHA256 => "TLS_RSA_WITH_ARIA_128_GCM_SHA256"@,
            TLSCipherSuite::TLS_RSA_WITH_ARIA_256_GCM_SHA384 => "TLS_RSA_WITH_ARIA_256_GCM_SHA384"@,
            TLSCipherSuite::TLS_DHE_RSA_WITH_ARIA_128_GCM_SHA256 => "TLS_DHE_RSA_WITH_ARIA_128_GCM_SHA256"@,
            TLSCipherSuite::TLS_DHE_RSA_WITH_ARIA_256_GCM_SHA384 => "TLS_DHE_RSA_WITH_ARIA_256_GCM_SHA384"@,
            TLSCipherSuite::TLS_DHE_DSS_WITH_ARIA_128_GCM_SHA256 => "TLS_DHE_DSS_WITH_ARIA_128_GCM_SHA256"@,
            TLSCipherSuite::TLS_DHE_DSS_WITH_ARIA_256_GCM_SHA384 => "TLS_DHE_DSS_WITH_ARIA_256_GCM_SHA384"@,
            TLSCipherSuite::TLS_ECDHE_ECDSA_WITH_ARIA_128_GCM_SHA256 => "TLS_ECDHE_ECDSA_WITH_ARIA_128_GCM_SHA256"@,
            TLSCipherSuite::TLS_ECDHE_ECDSA_WITH_ARIA_256_GCM_SHA384 => "TLS_ECDHE_ECDSA_WITH_ARIA_256_GCM_SHA384"@,
            TLSCipherSuite::TLS_ECDHE_RSA_WITH_ARIA_128_GCM_SHA256 => "TLS_ECDHE_RSA_WITH_ARIA_128_GCM_SHA256"@,
            TLSCipherSuite::TLS_ECDHE_RSA_WITH_ARIA_256_GCM_SHA384 => "TLS_ECDHE_RSA_WITH_ARIA_256_GCM_SHA384"@,
            TLSCipherSuite::TLS_PSK_WITH_ARIA_128_GCM_SHA256 => "TLS_PSK_WITH_ARIA_128_GCM_SHA256"@,
            TLSCipherSuite::TLS_PSK_WITH_ARIA_256_GCM_SHA384 => "TLS_PSK_WITH_ARIA_256_GCM_SHA384"@,
            TLSCipherSuite::TLS_DHE_PSK_WITH_ARIA_128_GCM_SHA256 => "TLS_DHE_PSK_WITH_ARIA_128_GCM_SHA256"@,
            TLSCipherSuite::TLS_DHE_PSK_WITH_ARIA_256_GCM_SHA384 => "TLS_DHE_PSK_WITH_ARIA_256_GCM_SHA384"@,
            TLSCipherSuite::TLS_RSA_PSK_WITH_ARIA_128_GCM_SHA256 => "TLS_RSA_PSK_WITH_ARIA_128_GCM_SHA256"@,
            TLSCipherSuite::TLS_RSA_PSK_WITH_ARIA_256_GCM_SHA384 => "TLS_RSA_PSK_WITH_ARIA_256_GCM_SHA384"@,
            TLSCipherSuite::TLS_ECDHE_ECDSA_WITH_CAMELLIA_128_CBC_SHA256 => "TLS_ECDHE_ECDSA_WITH_CAMELLIA_128_CBC_SHA256"@,
            TLSCipherSuite::TLS_ECDHE_ECDSA_WITH_CAMELLIA_256_CBC_SHA384 => "TLS_ECDHE_ECDSA_WITH_CAMELLIA_256_CBC_SHA384"@,
            TLSCipherSuite::TLS_ECDH_ECDSA_WITH_CAMELLIA_128_CBC_SHA256 => "TLS_ECDH_ECDSA_WITH_CAMELLIA_128_CBC_SHA256"@,
            TLSCipherSuite::TLS_ECDH_ECDSA_WITH_CAMELLIA_256_CBC_SHA384 => "TLS_ECDH_ECDSA_WITH_CAMELLIA_256_CBC_SHA384"@,
            TLSCipherSuite::TLS_ECDHE_RSA_WITH_CAMELLIA_128_CBC_SHA256 => "TLS_ECDHE_RSA_WITH_CAMELLIA_128_CBC_SHA256"@,
            TLSCipherSuite::TLS_ECDHE_RSA_WITH_CAMELLIA_256_CBC_SHA384 => "TLS_ECDHE_RSA_WITH_CAMELLIA_256_CBC_SHA384"@,
            TLSCipherSuite::TLS_ECDH_RSA_WITH_CAMELLIA_128_CBC_SHA256 => "TLS_ECDH_RSA_WITH_CAMELLIA_128_CBC_SHA256"@,
            TLSCipherSuite::TLS_ECDH_RSA_WITH_CAMELLIA_256_CBC_SHA384 => "TLS_ECDH_RSA_WITH_CAMELLIA_256_CBC_SHA384"@,
            TLSCipherSuite::TLS_PSK_WITH_CAMELLIA_128_CBC_SHA256 => "TLS_PSK_WITH_CAMELLIA_128_CBC_SHA256"@,
            TLSCipherSuite::TLS_PSK_WITH_CAMELLIA_256_CBC_SHA384 => "TLS_PSK_WITH_CAMELLIA_256_CBC_SHA384"@,
            TLSCipherSuite::TLS_DHE_PSK_WITH_CAMELLIA_128_CBC_SHA256 => "TLS_DHE_PSK_WITH_CAMELLIA_128_CBC_SHA256"@,
            TLSCipherSuite::TLS_DHE_PSK_WITH_CAMELLIA_256_CBC_SHA384 => "TLS_DHE_PSK_WITH_CAMELLIA_256_CBC_SHA384"@,
            TLSCipherSuite::TLS_RSA_PSK_WITH_CAMELLIA_128_CBC_SHA256 => "TLS_RSA_PSK_WITH_CAMELLIA_128_CBC_SHA256"@,
            TLSCipherSuite::TLS_RSA_PSK_WITH_CAMELLIA_256_CBC_SHA384 => "TLS_RSA_PSK_WITH_CAMELLIA_256_CBC_SHA384"@,
            TLSCipherSuite::TLS_ECDHE_PSK_WITH_CAMELLIA_128_CBC_SHA256 => "TLS_ECDHE_PSK_WITH_CAMELLIA_128_CBC_SHA256"@,
            TLSCipherSuite::TLS_ECDHE_PSK_WITH_CAMELLIA_256_CBC_SHA384 => "TLS_ECDHE_PSK_WITH_CAMELLIA_256_CBC_SHA384"@,
            TLSCipherSuite::TLS_RSA_WITH_AES_128_CCM => "TLS_RSA_WITH_AES_128_CCM"@,
            TLSCipherSuite::TLS_RSA_WITH_AES_256_CCM => "TLS_RSA_WITH_AES_256_CCM"@,
            TLSCipherSuite::TLS_DHE_RSA_WITH_AES_128_CCM => "TLS_DHE_RSA_WITH_AES_128_CCM"@,
            TLSCipherSuite::TLS_DHE_RSA_WITH_AES_256_CCM => "TLS_DHE_RSA_WITH_AES_256_CCM"@,
            TLSCipherSuite::TLS_RSA_WITH_AES_128_CCM_8 => "TLS_RSA_WITH_AES_128_CCM_8"@,
            TLSCipherSuite::TLS_RSA_WITH_AES_256_CCM_8 => "TLS_RSA_WITH_AES_256_CCM_8"@,
            TLSCipherSuite::TLS_DHE_RSA_WITH_AES_128_CCM_8 => "TLS_DHE_RSA_WITH_AES_128_CCM_8"@,
            TLSCipherSuite::TLS_DHE_RSA_WITH_AES_256_CCM_8 => "TLS_DHE_RSA_WITH_AES_256_CCM_8"@,
            TLSCipherSuite::TLS_PSK_WITH_AES_128_CCM => "TLS_PSK_WITH_AES_128_CCM"@,
            TLSCipherSuite::TLS_PSK_WITH_AES_256_CCM => "TLS_PSK_WITH_AES_256_CCM"@,
            TLSCipherSuite::TLS_DHE_PSK_WITH_AES_128_CCM => "TLS_DHE_PSK_WITH_AES_128_CCM"@,
            TLSCipherSuite::TLS_DHE_PSK_WITH_AES_256_CCM => "TLS_DHE_PSK_WITH_AES_256_CCM"@,
            TLSCipherSuite::TLS_PSK_WITH_AES_128_CCM_8 => "TLS_PSK_WITH_AES_128_CCM_8"@,
            TLSCipherSuite::TLS_PSK_WITH_AES_256_CCM_8 => "TLS_PSK_WITH_AES_256_CCM_8"@,
            TLSCipherSuite::TLS_PSK_DHE_WITH_AES_128_CCM_8 => "TLS_PSK_DHE_WITH_AES_128_CCM_8"@,
            TLSCipherSuite::TLS_PSK_DHE_WITH_AES_256_CCM_8 => "TLS_PSK_DHE_WITH_AES_256_CCM_8"@,
            TLSCipherSuite::TLS_ECDHE_ECDSA_WITH_AES_128_CCM => "TLS_ECDHE_ECDSA_WITH_AES_128_CCM"@,
            TLSCipherSuite::TLS_ECDHE_ECDSA_WITH_AES_256_CCM => "TLS_ECDHE_ECDSA_WITH_AES_256_CCM"@,
            TLSCipherSuite::TLS_ECDHE_ECDSA_WITH_AES_128_CCM_8 => "TLS_ECDHE_ECDSA_WITH_AES_128_CCM_8"@,
            TLSCipherSuite::TLS_ECDHE_ECDSA_WITH_AES_256_CCM_8 => "TLS_ECDHE_ECDSA_WITH_AES_256_CCM_8"@,
            TLSCipherSuite::OLD_TLS_ECDHE_RSA_WITH_CHACHA20_POLY1305_SHA256 => "OLD_TLS_ECDHE_RSA_WITH_CHACHA20_POLY1305_SHA256"@,
            TLSCipherSuite::OLD_TLS_ECDHE_ECDSA_WITH_CHACHA20_POLY1305_SHA256 => "OLD_TLS_ECDHE_ECDSA_WITH_CHACHA20_POLY1305_SHA256"@,
            TLSCipherSuite::OLD_TLS_DHE_RSA_WITH_CHACHA20_POLY1305_SHA256 => "OLD_TLS_DHE_RSA_WITH_CHACHA20_POLY1305_SHA256"@,
            TLSCipherSuite::TLS_ECDHE_RSA_WITH_CHACHA20_POLY1305_SHA256 => "TLS_ECDHE_RSA_WITH_CHACHA20_POLY1305_SHA256"@,
            TLSCipherSuite::TLS_ECDHE_ECDSA_WITH_CHACHA20_POLY1305_SHA256 => "TLS_ECDHE_ECDSA_WITH_CHACHA20_POLY1305_SHA256"@,
            TLSCipherSuite::TLS_DHE_RSA_WITH_CHACHA20_POLY1305_SHA256 => "TLS_DHE_RSA_WITH_CHACHA20_POLY1305_SHA256"@,
            TLSCipherSuite::TLS_PSK_WITH_CHACHA20_POLY1305_SHA256 => "TLS_PSK_WITH_CHACHA20_POLY1305_SHA256"@,
            TLSCipherSuite::TLS_ECDHE_PSK_WITH_CHACHA20_POLY1305_SHA256 => "TLS_ECDHE_PSK_WITH_CHACHA20_POLY1305_SHA256"@,
            TLSCipherSuite::TLS_DHE_PSK_WITH_CHACHA20_POLY1305_SHA256 => "TLS_DHE_PSK_WITH_CHACHA20_POLY1305_SHA256"@,
            TLSCipherSuite::TLS_RSA_PSK_WITH_CHACHA20_POLY1305_SHA256 => "TLS_RSA_PSK_WITH_CHACHA20_POLY1305_SHA256"@,
        }
    }

    /// The place of the suite in declaration order.
    pub open spec fn spec_position(self) -> int {
        match self {
            TLSCipherSuite::TLS_RSA_WITH_NULL_MD5 => 0,
            TLSCipherSuite::TLS_RSA_WITH_NULL_SHA => 1,
            TLSCipherSuite::TLS_RSA_EXPORT_WITH_RC4_40_MD5 => 2,
            TLSCipherSuite::TLS_RSA_WITH_RC4_128_MD5 => 3,
            TLSCipherSuite::TLS_RSA_WITH_RC4_128_SHA => 4,
            TLSCipherSuite::TLS_RSA_EXPORT_WITH_RC2_CBC_40_MD5 => 5,
            TLSCipherSuite::TLS_RSA_WITH_IDEA_CBC_SHA => 6,
            TLSCipherSuite::TLS_RSA_EXPORT_WITH_DES40_CBC_SHA => 7,
            TLSCipherSuite::TLS_RSA_WITH_DES_CBC_SHA => 8,
            TLSCipherSuite::TLS_RSA_WITH_3DES_EDE_CBC_SHA => 9,
            TLSCipherSuite::TLS_DH_DSS_EXPORT_WITH_DES40_CBC_SHA => 10,
            TLSCipherSuite::TLS_DH_DSS_WITH_DES_CBC_SHA => 11,
            TLSCipherSuite::TLS_DH_DSS_WITH_3DES_EDE_CBC_SHA => 12,
            TLSCipherSuite::TLS_DH_RSA_EXPORT_WITH_DES40_CBC_SHA => 13,
            TLSCipherSuite::TLS_DH_RSA_WITH_DES_CBC_SHA => 14,
            TLSCipherSuite::TLS_DH_RSA_WITH_3DES_EDE_CBC_SHA => 15,
            TLSCipherSuite::TLS_DHE_DSS_EXPORT_WITH_DES40_CBC_SHA => 16,
            TLSCipherSuite::TLS_DHE_DSS_WITH_DES_CBC_SHA => 17,
            TLSCipherSuite::TLS_DHE_DSS_WITH_3DES_EDE_CBC_SHA => 18,
            TLSCipherSuite::TLS_DHE_RSA_EXPORT_WITH_DES40_CBC_SHA => 19,
            TLSCipherSuite::TLS_DHE_RSA_WITH_DES_CBC_SHA => 20,
            TLSCipherSuite::TLS_DHE_RSA_WITH_3DES_EDE_CBC_SHA => 21,
            TLSCipherSuite::TLS_DH_anon_EXPORT_WITH_RC4_40_MD5 => 22,
            TLSCipherSuite::TLS_DH_anon_WITH_RC4_128_MD5 => 23,
            TLSCipherSuite::TLS_DH_anon_EXPORT_WITH_DES40_CBC_SHA => 24,
            TLSCipherSuite::TLS_DH_anon_WITH_DES_CBC_SHA => 25,
            TLSCipherSuite::TLS_DH_anon_WITH_3DES_EDE_CBC_SHA => 26,
            TLSCipherSuite::TLS_KRB5_WITH_DES_CBC_SHA => 27,
            TLSCipherSuite::TLS_KRB5_WITH_3DES_EDE_CBC_SHA => 28,
            TLSCipherSuite::TLS_KRB5_WITH_RC4_128_SHA => 29,
            TLSCipherSuite::TLS_KRB5_WITH_IDEA_CBC_SHA => 30,
            TLSCipherSuite::TLS_KRB5_WITH_DES_CBC_MD5 => 31,
            TLSCipherSuite::TLS_KRB5_WITH_3DES_EDE_CBC_MD5 => 32,
            TLSCipherSuite::TLS_KRB5_WITH_RC4_128_MD5 => 33,
            TLSCipherSuite::TLS_KRB5_WITH_IDEA_CBC_MD5 => 34,
            TLSCipherSuite::TLS_KRB5_EXPORT_WITH_DES_CBC_40_SHA => 35,
            TLSCipherSuite::TLS_KRB5_EXPORT_WITH_RC2_CBC_40_SHA => 36,
            TLSCipherSuite::TLS_KRB5_EXPORT_WITH_RC4_40_SHA => 37,
            TLSCipherSuite::TLS_KRB5_EXPORT_WITH_DES_CBC_40_MD5 => 38,
            TLSCipherSuite::TLS_KRB5_EXPORT_WITH_RC2_CBC_40_MD5 => 39,
            TLSCipherSuite::TLS_KRB5_EXPORT_WITH_RC4_40_MD5 => 40,
            TLSCipherSuite::TLS_PSK_WITH_NULL_SHA => 41,
            TLSCipherSuite::TLS_DHE_PSK_WITH_NULL_SHA => 42,
            TLSCipherSuite::TLS_RSA_PSK_WITH_NULL_SHA => 43,
            TLSCipherSuite::TLS_RSA_WITH_AES_128_CBC_SHA => 44,
            TLSCipherSuite::TLS_DH_DSS_WITH_AES_128_CBC_SHA => 45,
            TLSCipherSuite::TLS_DH_RSA_WITH_AES_128_CBC_SHA => 46,
            TLSCipherSuite::TLS_DHE_DSS_WITH_AES_128_CBC_SHA => 47,
            TLSCipherSuite::TLS_DHE_RSA_WITH_AES_128_CBC_SHA => 48,
            TLSCipherSuite::TLS_DH_anon_WITH_AES_128_CBC_SHA => 49,
            TLSCipherSuite::TLS_RSA_WITH_AES_256_CBC_SHA => 50,
            TLSCipherSuite::TLS_DH_DSS_WITH_AES_256_CBC_SHA => 51,
            TLSCipherSuite::TLS_DH_RSA_WITH_AES_256_CBC_SHA => 52,
            TLSCipherSuite::TLS_DHE_DSS_WITH_AES_256_CBC_SHA => 53,
            TLSCipherSuite::TLS_DHE_RSA_WITH_AES_256_CBC_SHA => 54,
            TLSCipherSuite::TLS_DH_anon_WITH_AES_256_CBC_SHA => 55,
            TLSCipherSuite::TLS_RSA_WITH_NULL_SHA256 => 56,
            TLSCipherSuite::TLS_RSA_WITH_AES_128_CBC_SHA256 => 57,
            TLSCipherSuite::TLS_RSA_WITH_AES_256_CBC_SHA256 => 58,
            TLSCipherSuite::TLS_DH_DSS_WITH_AES_128_CBC_SHA256 => 59,
            TLSCipherSuite::TLS_DH_RSA_WITH_AES_128_CBC_SHA256 => 60,
            TLSCipherSuite::TLS_DHE_DSS_WITH_AES_128_CBC_SHA256 => 61,
            TLSCipherSuite::TLS_RSA_WITH_CAMELLIA_128_CBC_SHA => 62,
            TLSCipherSuite::TLS_DH_DSS_WITH_CAMELLIA_128_CBC_SHA => 63,
            TLSCipherSuite::TLS_DH_RSA_WITH_CAMELLIA_128_CBC_SHA => 64,
            TLSCipherSuite::TLS_DHE_DSS_WITH_CAMELLIA_128_CBC_SHA => 65,
            TLSCipherSuite::TLS_DHE_RSA_WITH_CAMELLIA_128_CBC_SHA => 66,
            TLSCipherSuite::TLS_DH_anon_WITH_CAMELLIA_128_CBC_SHA => 67,
            TLSCipherSuite::TLS_RSA_EXPORT1024_WITH_RC4_56_MD5 => 68,
            TLSCipherSuite::TLS_RSA_EXPORT1024_WITH_RC2_CBC_56_MD5 => 69,
            TLSCipherSuite::TLS_RSA_EXPORT1024_WITH_DES_CBC_SHA => 70,
            TLSCipherSuite::TLS_DHE_DSS_EXPORT1024_WITH_DES_CBC_SHA => 71,
            TLSCipherSuite::TLS_RSA_EXPORT1024_WITH_RC4_56_SHA => 72,
            TLSCipherSuite::TLS_DHE_DSS_EXPORT1024_WITH_RC4_56_SHA => 73,
            TLSCipherSuite::TLS_DHE_DSS_WITH_RC4_128_SHA => 74,
            TLSCipherSuite::TLS_DHE_RSA_WITH_AES_128_CBC_SHA256 => 75,
            TLSCipherSuite::TLS_DH_DSS_WITH_AES_256_CBC_SHA256 => 76,
            TLSCipherSuite::TLS_DH_RSA_WITH_AES_256_CBC_SHA256 => 77,
            TLSCipherSuite::TLS_DHE_DSS_WITH_AES_256_CBC_SHA256 => 78,
            TLSCipherSuite::TLS_DHE_RSA_WITH_AES_256_CBC_SHA256 => 79,
            TLSCipherSuite::TLS_DH_anon_WITH_AES_128_CBC_SHA256 => 80,
            TLSCipherSuite::TLS_DH_anon_WITH_AES_256_CBC_SHA256 => 81,
            TLSCipherSuite::TLS_GOSTR341094_WITH_28147_CNT_IMIT => 82,
            TLSCipherSuite::TLS_GOSTR341001_WITH_28147_CNT_IMIT => 83,
            TLSCipherSuite::TLS_GOSTR341094_WITH_NULL_GOSTR3411 => 84,
            TLSCipherSuite::TLS_GOSTR341001_WITH_NULL_GOSTR3411 => 85,
            TLSCipherSuite::TLS_RSA_WITH_CAMELLIA_256_CBC_SHA => 86,
            TLSCipherSuite::TLS_DH_DSS_WITH_CAMELLIA_256_CBC_SHA => 87,
            TLSCipherSuite::TLS_DH_RSA_WITH_CAMELLIA_256_CBC_SHA => 88,
            TLSCipherSuite::TLS_DHE_DSS_WITH_CAMELLIA_256_CBC_SHA => 89,
            TLSCipherSuite::TLS_DHE_RSA_WITH_CAMELLIA_256_CBC_SHA => 90,
            TLSCipherSuite::TLS_DH_anon_WITH_CAMELLIA_256_CBC_SHA => 91,
            TLSCipherSuite::TLS_PSK_WITH_RC4_128_SHA => 92,
            TLSCipherSuite::TLS_PSK_WITH_3DES_EDE_CBC_SHA => 93,
            TLSCipherSuite::TLS_PSK_WITH_AES_128_CBC_SHA => 94,
            TLSCipherSuite::TLS_PSK_WITH_AES_256_CBC_SHA => 95,
            TLSCipherSuite::TLS_DHE_PSK_WITH_RC4_128_SHA => 96,
            TLSCipherSuite::TLS_DHE_PSK_WITH_3DES_EDE_CBC_SHA => 97,
            TLSCipherSuite::TLS_DHE_PSK_WITH_AES_128_CBC_SHA => 98,
            TLSCipherSuite::TLS_DHE_PSK_WITH_AES_256_CBC_SHA => 99,
            TLSCipherSuite::TLS_RSA_PSK_WITH_RC4_128_SHA => 100,
            TLSCipherSuite::TLS_RSA_PSK_WITH_3DES_EDE_CBC_SHA => 101,
            TLSCipherSuite::TLS_RSA_PSK_WITH_AES_128_CBC_SHA => 102,
            TLSCipherSuite::TLS_RSA_PSK_WITH_AES_256_CBC_SHA => 103,
            TLSCipherSuite::TLS_RSA_WITH_SEED_CBC_SHA => 104,
            TLSCipherSuite::TLS_DH_DSS_WITH_SEED_CBC_SHA => 105,
            TLSCipherSuite::TLS_DH_RSA_WITH_SEED_CBC_SHA => 106,
            TLSCipherSuite::TLS_DHE_DSS_WITH_SEED_CBC_SHA => 107,
            TLSCipherSuite::TLS_DHE_RSA_WITH_SEED_CBC_SHA => 108,
            TLSCipherSuite::TLS_DH_anon_WITH_SEED_CBC_SHA => 109,
            TLSCipherSuite::TLS_RSA_WITH_AES_128_GCM_SHA256 => 110,
            TLSCipherSuite::TLS_RSA_WITH_AES_256_GCM_SHA384 => 111,
            TLSCipherSuite::TLS_DHE_RSA_WITH_AES_128_GCM_SHA256 => 112,
            TLSCipherSuite::TLS_DHE_RSA_WITH_AES_256_GCM_SHA384 => 113,
            TLSCipherSuite::TLS_DH_RSA_WITH_AES_128_GCM_SHA256 => 114,
            TLSCipherSuite::TLS_DH_RSA_WITH_AES_256_GCM_SHA384 => 115,
            TLSCipherSuite::TLS_DHE_DSS_WITH_AES_128_GCM_SHA256 => 116,
            TLSCipherSuite::TLS_DHE_DSS_WITH_AES_256_GCM_SHA384 => 117,
            TLSCipherSuite::TLS_DH_DSS_WITH_AES_128_GCM_SHA256 => 118,
            TLSCipherSuite::TLS_DH_DSS_WITH_AES_256_GCM_SHA384 => 119,
            TLSCipherSuite::TLS_DH_anon_WITH_AES_128_GCM_SHA256 => 120,
            TLSCipherSuite::TLS_DH_anon_WITH_AES_256_GCM_SHA384 => 121,
            TLSCipherSuite::TLS_PSK_WITH_AES_128_GCM_SHA256 => 122,
            TLSCipherSuite::TLS_PSK_WITH_AES_256_GCM_SHA384 => 123,
            TLSCipherSuite::TLS_DHE_PSK_WITH_AES_128_GCM_SHA256 => 124,
            TLSCipherSuite::TLS_DHE_PSK_WITH_AES_256_GCM_SHA384 => 125,
            TLSCipherSuite::TLS_RSA_PSK_WITH_AES_128_GCM_SHA256 => 126,
            TLSCipherSuite::TLS_RSA_PSK_WITH_AES_256_GCM_SHA384 => 127,
            TLSCipherSuite::TLS_PSK_WITH_AES_128_CBC_SHA256 => 128,
            TLSCipherSuite::TLS_PSK_WITH_AES_256_CBC_SHA384 => 129,
            TLSCipherSuite::TLS_PSK_WITH_NULL_SHA256 => 130,
            TLSCipherSuite::TLS_PSK_WITH_NULL_SHA384 => 131,
            TLSCipherSuite::TLS_DHE_PSK_WITH_AES_128_CBC_SHA256 => 132,
            TLSCipherSuite::TLS_DHE_PSK_WITH_AES_256_CBC_SHA384 => 133,
            TLSCipherSuite::TLS_DHE_PSK_WITH_NULL_SHA256 => 134,
            TLSCipherSuite::TLS_DHE_PSK_WITH_NULL_SHA384 => 135,
            TLSCipherSuite::TLS_RSA_PSK_WITH_AES_128_CBC_SHA256 => 136,
            TLSCipherSuite::TLS_RSA_PSK_WITH_AES_256_CBC_SHA384 => 137,
            TLSCipherSuite::TLS_RSA_PSK_WITH_NULL_SHA256 => 138,
            TLSCipherSuite::TLS_RSA_PSK_WITH_NULL_SHA384 => 139,
            TLSCipherSuite::TLS_RSA_WITH_CAMELLIA_128_CBC_SHA256 => 140,
            TLSCipherSuite::TLS_DH_DSS_WITH_CAMELLIA_128_CBC_SHA256 => 141,
            TLSCipherSuite::TLS_DH_RSA_WITH_CAMELLIA_128_CBC_SHA256 => 142,
            TLSCipherSuite::TLS_DHE_DSS_WITH_CAMELLIA_128_CBC_SHA256 => 143,
            TLSCipherSuite::TLS_DHE_RSA_WITH_CAMELLIA_128_CBC_SHA256 => 144,
            TLSCipherSuite::TLS_DH_anon_WITH_CAMELLIA_128_CBC_SHA256 => 145,
            TLSCipherSuite::TLS_RSA_WITH_CAMELLIA_256_CBC_SHA256 => 146,
            TLSCipherSuite::TLS_DH_DSS_WITH_CAMELLIA_256_CBC_SHA256 => 147,
            TLSCipherSuite::TLS_DH_RSA_WITH_CAMELLIA_256_CBC_SHA256 => 148,
            TLSCipherSuite::TLS_DHE_DSS_WITH_CAMELLIA_256_CBC_SHA256 => 149,
            TLSCipherSuite::TLS_DHE_RSA_WITH_CAMELLIA_256_CBC_SHA256 => 150,
            TLSCipherSuite::TLS_DH_anon_WITH_CAMELLIA_256_CBC_SHA256 => 151,
            TLSCipherSuite::TLS_AES_128_GCM_SHA256 => 152,
            TLSCipherSuite::TLS_AES_256_GCM_SHA384 => 153,
            TLSCipherSuite::TLS_CHACHA20_POLY1305_SHA256 => 154,
            TLSCipherSuite::TLS_AES_128_CCM_SHA256 => 155,
            TLSCipherSuite::TLS_AES_128_CCM_8_SHA256 => 156,
            TLSCipherSuite::TLS_ECDH_ECDSA_WITH_NULL_SHA => 157,
            TLSCipherSuite::TLS_ECDH_ECDSA_WITH_RC4_128_SHA => 158,
            TLSCipherSuite::TLS_ECDH_ECDSA_WITH_3DES_EDE_CBC_SHA => 159,
            TLSCipherSuite::TLS_ECDH_ECDSA_WITH_AES_128_CBC_SHA => 160,
            TLSCipherSuite::TLS_ECDH_ECDSA_WITH_AES_256_CBC_SHA => 161,
            TLSCipherSuite::TLS_ECDHE_ECDSA_WITH_NULL_SHA => 162,
            TLSCipherSuite::TLS_ECDHE_ECDSA_WITH_RC4_128_SHA => 163,
            TLSCipherSuite::TLS_ECDHE_ECDSA_WITH_3DES_EDE_CBC_SHA => 164,
            TLSCipherSuite::TLS_ECDHE_ECDSA_WITH_AES_128_CBC_SHA => 165,
            TLSCipherSuite::TLS_ECDHE_ECDSA_WITH_AES_256_CBC_SHA => 166,
            TLSCipherSuite::TLS_ECDH_RSA_WITH_NULL_SHA => 167,
            TLSCipherSuite::TLS_ECDH_RSA_WITH_RC4_128_SHA => 168,
            TLSCipherSuite::TLS_ECDH_RSA_WITH_3DES_EDE_CBC_SHA => 169,
            TLSCipherSuite::TLS_ECDH_RSA_WITH_AES_128_CBC_SHA => 170,
            TLSCipherSuite::TLS_ECDH_RSA_WITH_AES_256_CBC_SHA => 171,
            TLSCipherSuite::TLS_ECDHE_RSA_WITH_NULL_SHA => 172,
            TLSCipherSuite::TLS_ECDHE_RSA_WITH_RC4_128_SHA => 173,
            TLSCipherSuite::TLS_ECDHE_RSA_WITH_3DES_EDE_CBC_SHA => 174,
            TLSCipherSuite::TLS_ECDHE_RSA_WITH_AES_128_CBC_SHA => 175,
            TLSCipherSuite::TLS_ECDHE_RSA_WITH_AES_256_CBC_SHA => 176,
            TLSCipherSuite::TLS_ECDH_anon_WITH_NULL_SHA => 177,
            TLSCipherSuite::TLS_ECDH_anon_WITH_RC4_128_SHA => 178,
            TLSCipherSuite::TLS_ECDH_anon_WITH_3DES_EDE_CBC_SHA => 179,
            TLSCipherSuite::TLS_ECDH_anon_WITH_AES_128_CBC_SHA => 180,
            TLSCipherSuite::TLS_ECDH_anon_WITH_AES_256_CBC_SHA => 181,
            TLSCipherSuite::TLS_SRP_SHA_WITH_3DES_EDE_CBC_SHA => 182,
            TLSCipherSuite::TLS_SRP_SHA_RSA_WITH_3DES_EDE_CBC_SHA => 183,
            TLSCipherSuite::TLS_SRP_SHA_DSS_WITH_3DES_EDE_CBC_SHA => 184,
            TLSCipherSuite::TLS_SRP_SHA_WITH_AES_128_CBC_SHA => 185,
            TLSCipherSuite::TLS_SRP_SHA_RSA_WITH_AES_128_CBC_SHA => 186,
            TLSCipherSuite::TLS_SRP_SHA_DSS_WITH_AES_128_CBC_SHA => 187,
            TLSCipherSuite::TLS_SRP_SHA_WITH_AES_256_CBC_SHA => 188,
            TLSCipherSuite::TLS_SRP_SHA_RSA_WITH_AES_256_CBC_SHA => 189,
            TLSCipherSuite::TLS_SRP_SHA_DSS_WITH_AES_256_CBC_SHA => 190,
            TLSCipherSuite::TLS_ECDHE_ECDSA_WITH_AES_128_CBC_SHA256 => 191,
            TLSCipherSuite::TLS_ECDHE_ECDSA_WITH_AES_256_CBC_SHA384 => 192,
            TLSCipherSuite::TLS_ECDH_ECDSA_WITH_AES_128_CBC_SHA256 => 193,
            TLSCipherSuite::TLS_ECDH_ECDSA_WITH_AES_256_CBC_SHA384 => 194,
            TLSCipherSuite::TLS_ECDHE_RSA_WITH_AES_128_CBC_SHA256 => 195,
            TLSCipherSuite::TLS_ECDHE_RSA_WITH_AES_256_CBC_SHA384 => 196,
            TLSCipherSuite::TLS_ECDH_RSA_WITH_AES_128_CBC_SHA256 => 197,
            TLSCipherSuite::TLS_ECDH_RSA_WITH_AES_256_CBC_SHA384 => 198,
            TLSCipherSuite::TLS_ECDHE_ECDSA_WITH_AES_128_GCM_SHA256 => 199,
            TLSCipherSuite::TLS_ECDHE_ECDSA_WITH_AES_256_GCM_SHA384 => 200,
            TLSCipherSuite::TLS_ECDH_ECDSA_WITH_AES_128_GCM_SHA256 => 201,
            TLSCipherSuite::TLS_ECDH_ECDSA_WITH_AES_256_GCM_SHA384 => 202,
            TLSCipherSuite::TLS_ECDHE_RSA_WITH_AES_128_GCM_SHA256 => 203,
            TLSCipherSuite::TLS_ECDHE_RSA_WITH_AES_256_GCM_SHA384 => 204,
            TLSCipherSuite::TLS_ECDH_RSA_WITH_AES_128_GCM_SHA256 => 205,
            TLSCipherSuite::TLS_ECDH_RSA_WITH_AES_256_GCM_SHA384 => 206,
            TLSCipherSuite::TLS_ECDHE_PSK_WITH_RC4_128_SHA => 207,
            TLSCipherSuite::TLS_ECDHE_PSK_WITH_3DES_EDE_CBC_SHA => 208,
            TLSCipherSuite::TLS_ECDHE_PSK_WITH_AES_128_CBC_SHA => 209,
            TLSCipherSuite::TLS_ECDHE_PSK_WITH_AES_256_CBC_SHA => 210,
            TLSCipherSuite::TLS_ECDHE_PSK_WITH_AES_128_CBC_SHA256 => 211,
            TLSCipherSuite::TLS_ECDHE_PSK_WITH_AES_256_CBC_SHA384 => 212,
            TLSCipherSuite::TLS_ECDHE_PSK_WITH_NULL_SHA => 213,
            TLSCipherSuite::TLS_ECDHE_PSK_WITH_NULL_SHA256 => 214,
            TLSCipherSuite::TLS_ECDHE_PSK_WITH_NULL_SHA384 => 215,
            TLSCipherSuite::TLS_RSA_WITH_ARIA_128_GCM_SHA256 => 216,
            TLSCipherSuite::TLS_RSA_WITH_ARIA_256_GCM_SHA384 => 217,
            TLSCipherSuite::TLS_DHE_RSA_WITH_ARIA_128_GCM_SHA256 => 218,
            TLSCipherSuite::TLS_DHE_RSA_WITH_ARIA_256_GCM_SHA384 => 219,
            TLSCipherSuite::TLS_DHE_DSS_WITH_ARIA_128_GCM_SHA256 => 220,
            TLSCipherSuite::TLS_DHE_DSS_WITH_ARIA_256_GCM_SHA384 => 221,
            TLSCipherSuite::TLS_ECDHE_ECDSA_WITH_ARIA_128_GCM_SHA256 => 222,
            TLSCipherSuite::TLS_ECDHE_ECDSA_WITH_ARIA_256_GCM_SHA384 => 223,
            TLSCipherSuite::TLS_ECDHE_RSA_WITH_ARIA_128_GCM_SHA256 => 224,
            TLSCipherSuite::TLS_ECDHE_RSA_WITH_ARIA_256_GCM_SHA384 => 225,
            TLSCipherSuite::TLS_PSK_WITH_ARIA_128_GCM_SHA256 => 226,
            TLSCipherSuite::TLS_PSK_WITH_ARIA_256_GCM_SHA384 => 227,
            TLSCipherSuite::TLS_DHE_PSK_WITH_ARIA_128_GCM_SHA256 => 228,
            TLSCipherSuite::TLS_DHE_PSK_WITH_ARIA_256_GCM_SHA384 => 229,
            TLSCipherSuite::TLS_RSA_PSK_WITH_ARIA_128_GCM_SHA256 => 230,
            TLSCipherSuite::TLS_RSA_PSK_WITH_ARIA_256_GCM_SHA384 => 231,
            TLSCipherSuite::TLS_ECDHE_ECDSA_WITH_CAMELLIA_128_CBC_SHA256 => 232,
            TLSCipherSuite::TLS_ECDHE_ECDSA_WITH_CAMELLIA_256_CBC_SHA384 => 233,
            TLSCipherSuite::TLS_ECDH_ECDSA_WITH_CAMELLIA_128_CBC_SHA256 => 234,
            TLSCipherSuite::TLS_ECDH_ECDSA_WITH_CAMELLIA_256_CBC_SHA384 => 235,
            TLSCipherSuite::TLS_ECDHE_RSA_WITH_CAMELLIA_128_CBC_SHA256 => 236,
            TLSCipherSuite::TLS_ECDHE_RSA_WITH_CAMELLIA_256_CBC_SHA384 => 237,
            TLSCipherSuite::TLS_ECDH_RSA_WITH_CAMELLIA_128_CBC_SHA256 => 238,
            TLSCipherSuite::TLS_ECDH_RSA_WITH_CAMELLIA_256_CBC_SHA384 => 239,
            TLSCipherSuite::TLS_PSK_WITH_CAMELLIA_128_CBC_SHA256 => 240,
            TLSCipherSuite::TLS_PSK_WITH_CAMELLIA_256_CBC_SHA384 => 241,
            TLSCipherSuite::TLS_DHE_PSK_WITH_CAMELLIA_128_CBC_SHA256 => 242,
            TLSCipherSuite::TLS_DHE_PSK_WITH_CAMELLIA_256_CBC_SHA384 => 243,
            TLSCipherSuite::TLS_RSA_PSK_WITH_CAMELLIA_128_CBC_SHA256 => 244,
            TLSCipherSuite::TLS_RSA_PSK_WITH_CAMELLIA_256_CBC_SHA384 => 245,
            TLSCipherSuite::TLS_ECDHE_PSK_WITH_CAMELLIA_128_CBC_SHA256 => 246,
            TLSCipherSuite::TLS_ECDHE_PSK_WITH_CAMELLIA_256_CBC_SHA384 => 247,
            TLSCipherSuite::TLS_RSA_WITH_AES_128_CCM => 248,
            TLSCipherSuite::TLS_RSA_WITH_AES_256_CCM => 249,
            TLSCipherSuite::TLS_DHE_RSA_WITH_AES_128_CCM => 250,
            TLSCipherSuite::TLS_DHE_RSA_WITH_AES_256_CCM => 251,
            TLSCipherSuite::TLS_RSA_WITH_AES_128_CCM_8 => 252,
            TLSCipherSuite::TLS_RSA_WITH_AES_256_CCM_8 => 253,
            TLSCipherSuite::TLS_DHE_RSA_WITH_AES_128_CCM_8 => 254,
            TLSCipherSuite::TLS_DHE_RSA_WITH_AES_256_CCM_8 => 255,
            TLSCipherSuite::TLS_PSK_WITH_AES_128_CCM => 256,
            TLSCipherSuite::TLS_PSK_WITH_AES_256_CCM => 257,
            TLSCipherSuite::TLS_DHE_PSK_WITH_AES_128_CCM => 258,
            TLSCipherSuite::TLS_DHE_PSK_WITH_AES_256_CCM => 259,
            TLSCipherSuite::TLS_PSK_WITH_AES_128_CCM_8 => 260,
            TLSCipherSuite::TLS_PSK_WITH_AES_256_CCM_8 => 261,
            TLSCipherSuite::TLS_PSK_DHE_WITH_AES_128_CCM_8 => 262,
            TLSCipherSuite::TLS_PSK_DHE_WITH_AES_256_CCM_8 => 263,
            TLSCipherSuite::TLS_ECDHE_ECDSA_WITH_AES_128_CCM => 264,
            TLSCipherSuite::TLS_ECDHE_ECDSA_WITH_AES_256_CCM => 265,
            TLSCipherSuite::TLS_ECDHE_ECDSA_WITH_AES_128_CCM_8 => 266,
            TLSCipherSuite::TLS_ECDHE_ECDSA_WITH_AES_256_CCM_8 => 267,
            TLSCipherSuite::OLD_TLS_ECDHE_RSA_WITH_CHACHA20_POLY1305_SHA256 => 268,
            TLSCipherSuite::OLD_TLS_ECDHE_ECDSA_WITH_CHACHA20_POLY1305_SHA256 => 269,
            TLSCipherSuite::OLD_TLS_DHE_RSA_WITH_CHACHA20_POLY1305_SHA256 => 270,
            TLSCipherSuite::TLS_ECDHE_RSA_WITH_CHACHA20_POLY1305_SHA256 => 271,
            TLSCipherSuite::TLS_ECDHE_ECDSA_WITH_CHACHA20_POLY1305_SHA256 => 272,
            TLSCipherSuite::TLS_DHE_RSA_WITH_CHACHA20_POLY1305_SHA256 => 273,
            TLSCipherSuite::TLS_PSK_WITH_CHACHA20_POLY1305_SHA256 => 274,
            TLSCipherSuite::TLS_ECDHE_PSK_WITH_CHACHA20_POLY1305_SHA256 => 275,
            TLSCipherSuite::TLS_DHE_PSK_WITH_CHACHA20_POLY1305_SHA256 => 276,
            TLSCipherSuite::TLS_RSA_PSK_WITH_CHACHA20_POLY1305_SHA256 => 277,
        }
    }

    /// The suite at place `i` in declaration order (the first one before the start, the
    /// last one past the end).
    #[verifier::opaque]
    pub open spec fn spec_at(i: int) -> Self {
        if i <= 0 {
            TLSCipherSuite::TLS_RSA_WITH_NULL_MD5
        } else if i <= 1 {
            TLSCipherSuite::TLS_RSA_WITH_NULL_SHA
        } else if i <= 2 {
            TLSCipherSuite::TLS_RSA_EXPORT_WITH_RC4_40_MD5
        } else if i <= 3 {
            TLSCipherSuite::TLS_RSA_WITH_RC4_128_MD5
        } else if i <= 4 {
            TLSCipherSuite::TLS_RSA_WITH_RC4_128_SHA
        } else if i <= 5 {
            TLSCipherSuite::TLS_RSA_EXPORT_WITH_RC2_CBC_40_MD5
        } else if i <= 6 {
            TLSCipherSuite::TLS_RSA_WITH_IDEA_CBC_SHA
        } else if i <= 7 {
            TLSCipherSuite::TLS_RSA_EXPORT_WITH_DES40_CBC_SHA
        } else if i <= 8 {
            TLSCipherSuite::TLS_RSA_WITH_DES_CBC_SHA
        } else if i <= 9 {
            TLSCipherSuite::TLS_RSA_WITH_3DES_EDE_CBC_SHA
        } else if i <= 10 {
            TLSCipherSuite::TLS_DH_DSS_EXPORT_WITH_DES40_CBC_SHA
        } else if i <= 11 {
            TLSCipherSuite::TLS_DH_DSS_WITH_DES_CBC_SHA
        } else if i <= 12 {
            TLSCipherSuite::TLS_DH_DSS_WITH_3DES_EDE_CBC_SHA
        } else if i <= 13 {
            TLSCipherSuite::TLS_DH_RSA_EXPORT_WITH_DES40_CBC_SHA
        } else if i <= 14 {
            TLSCipherSuite::TLS_DH_RSA_WITH_DES_CBC_SHA
        } else if i <= 15 {
            TLSCipherSuite::TLS_DH_RSA_WITH_3DES_EDE_CBC_SHA
        } else if i <= 16 {
            TLSCipherSuite::TLS_DHE_DSS_EXPORT_WITH_DES40_CBC_SHA
        } else if i <= 17 {
            TLSCipherSuite::TLS_DHE_DSS_WITH_DES_CBC_SHA
        } else if i <= 18 {
            TLSCipherSuite::TLS_DHE_DSS_WITH_3DES_EDE_CBC_SHA
        } else if i <= 19 {
            TLSCipherSuite::TLS_DHE_RSA_EXPORT_WITH_DES40_CBC_SHA
        } else if i <= 20 {
            TLSCipherSuite::TLS_DHE_RSA_WITH_DES_CBC_SHA
        } else if i <= 21 {
            TLSCipherSuite::TLS_DHE_RSA_WITH_3DES_EDE_CBC_SHA
        } else if i <= 22 {
            TLSCipherSuite::TLS_DH_anon_EXPORT_WITH_RC4_40_MD5
        } else if i <= 23 {
            TLSCipherSuite::TLS_DH_anon_WITH_RC4_128_MD5
        } else if i <= 24 {
            TLSCipherSuite::TLS_DH_anon_EXPORT_WITH_DES40_CBC_SHA
        } else if i <= 25 {
            TLSCipherSuite::TLS_DH_anon_WITH_DES_CBC_SHA
        } else if i <= 26 {
            TLSCipherSuite::TLS_DH_anon_WITH_3DES_EDE_CBC_SHA
        } else if i <= 27 {
            TLSCipherSuite::TLS_KRB5_WITH_DES_CBC_SHA
        } else if i <= 28 {
            TLSCipherSuite::TLS_KRB5_WITH_3DES_EDE_CBC_SHA
        } else if i <= 29 {
            TLSCipherSuite::TLS_KRB5_WITH_RC4_128_SHA
        } else if i <= 30 {
            TLSCipherSuite::TLS_KRB5_WITH_IDEA_CBC_SHA
        } else if i <= 31 {
            TLSCipherSuite::TLS_KRB5_WITH_DES_CBC_MD5
        } else if i <= 32 {
            TLSCipherSuite::TLS_KRB5_WITH_3DES_EDE_CBC_MD5
        } else if i <= 33 {
            TLSCipherSuite::TLS_KRB5_WITH_RC4_128_MD5
        } else if i <= 34 {
            TLSCipherSuite::TLS_KRB5_WITH_IDEA_CBC_MD5
        } else if i <= 35 {
            TLSCipherSuite::TLS_KRB5_EXPORT_WITH_DES_CBC_40_SHA
        } else if i <= 36 {
            TLSCipherSuite::TLS_KRB5_EXPORT_WITH_RC2_CBC_40_SHA
        } else if i <= 37 {
            TLSCipherSuite::TLS_KRB5_EXPORT_WITH_RC4_40_SHA
        } else if i <= 38 {
            TLSCipherSuite::TLS_KRB5_EXPORT_WITH_DES_CBC_40_MD5
        } else if i <= 39 {
            TLSCipherSuite::TLS_KRB5_EXPORT_WITH_RC2_CBC_40_MD5
        } else if i <= 40 {
            TLSCipherSuite::TLS_KRB5_EXPORT_WITH_RC4_40_MD5
        } else if i <= 41 {
            TLSCipherSuite::TLS_PSK_WITH_NULL_SHA
        } else if i <= 42 {
            TLSCipherSuite::TLS_DHE_PSK_WITH_NULL_SHA
        } else if i <= 43 {
            TLSCipherSuite::TLS_RSA_PSK_WITH_NULL_SHA
        } else if i <= 44 {
            TLSCipherSuite::TLS_RSA_WITH_AES_128_CBC_SHA
        } else if i <= 45 {
            TLSCipherSuite::TLS_DH_DSS_WITH_AES_128_CBC_SHA
        } else if i <= 46 {
            TLSCipherSuite::TLS_DH_RSA_WITH_AES_128_CBC_SHA
        } else if i <= 47 {
            TLSCipherSuite::TLS_DHE_DSS_WITH_AES_128_CBC_SHA
        } else if i <= 48 {
            TLSCipherSuite::TLS_DHE_RSA_WITH_AES_128_CBC_SHA
        } else if i <= 49 {
            TLSCipherSuite::TLS_DH_anon_WITH_AES_128_CBC_SHA
        } else if i <= 50 {
            TLSCipherSuite::TLS_RSA_WITH_AES_256_CBC_SHA
        } else if i <= 51 {
            TLSCipherSuite::TLS_DH_DSS_WITH_AES_256_CBC_SHA
        } else if i <= 52 {
            TLSCipherSuite::TLS_DH_RSA_WITH_AES_256_CBC_SHA
        } else if i <= 53 {
            TLSCipherSuite::TLS_DHE_DSS_WITH_AES_256_CBC_SHA
        } else if i <= 54 {
            TLSCipherSuite::TLS_DHE_RSA_WITH_AES_256_CBC_SHA
        } else if i <= 55 {
            TLSCipherSuite::TLS_DH_anon_WITH_AES_256_CBC_SHA
        } else if i <= 56 {
            TLSCipherSuite::TLS_RSA_WITH_NULL_SHA256
        } else if i <= 57 {
            TLSCipherSuite::TLS_RSA_WITH_AES_128_CBC_SHA256
        } else if i <= 58 {
            TLSCipherSuite::TLS_RSA_WITH_AES_256_CBC_SHA256
        } else if i <= 59 {
            TLSCipherSuite::TLS_DH_DSS_WITH_AES_128_CBC_SHA256
        } else if i <= 60 {
            TLSCipherSuite::TLS_DH_RSA_WITH_AES_128_CBC_SHA256
        } else if i <= 61 {
            TLSCipherSuite::TLS_DHE_DSS_WITH_AES_128_CBC_SHA256
        } else if i <= 62 {
            TLSCipherSuite::TLS_RSA_WITH_CAMELLIA_128_CBC_SHA
        } else if i <= 63 {
            TLSCipherSuite::TLS_DH_DSS_WITH_CAMELLIA_128_CBC_SHA
        } else if i <= 64 {
            TLSCipherSuite::TLS_DH_RSA_WITH_CAMELLIA_128_CBC_SHA
        } else if i <= 65 {
            TLSCipherSuite::TLS_DHE_DSS_WITH_CAMELLIA_128_CBC_SHA
        } else if i <= 66 {
            TLSCipherSuite::TLS_DHE_RSA_WITH_CAMELLIA_128_CBC_SHA
        } else if i <= 67 {
            TLSCipherSuite::TLS_DH_anon_WITH_CAMELLIA_128_CBC_SHA
        } else if i <= 68 {
            TLSCipherSuite::TLS_RSA_EXPORT1024_WITH_RC4_56_MD5
        } else if i <= 69 {
            TLSCipherSuite::TLS_RSA_EXPORT1024_WITH_RC2_CBC_56_MD5
        } else if i <= 70 {
            TLSCipherSuite::TLS_RSA_EXPORT1024_WITH_DES_CBC_SHA
        } else if i <= 71 {
            TLSCipherSuite::TLS_DHE_DSS_EXPORT1024_WITH_DES_CBC_SHA
        } else if i <= 72 {
            TLSCipherSuite::TLS_RSA_EXPORT1024_WITH_RC4_56_SHA
        } else if i <= 73 {
            TLSCipherSuite::TLS_DHE_DSS_EXPORT1024_WITH_RC4_56_SHA
        } else if i <= 74 {
            TLSCipherSuite::TLS_DHE_DSS_WITH_RC4_128_SHA
        } else if i <= 75 {
            TLSCipherSuite::TLS_DHE_RSA_WITH_AES_128_CBC_SHA256
        } else if i <= 76 {
            TLSCipherSuite::TLS_DH_DSS_WITH_AES_256_CBC_SHA256
        } else if i <= 77 {
            TLSCipherSuite::TLS_DH_RSA_WITH_AES_256_CBC_SHA256
        } else if i <= 78 {
            TLSCipherSuite::TLS_DHE_DSS_WITH_AES_256_CBC_SHA256
        } else if i <= 79 {
            TLSCipherSuite::TLS_DHE_RSA_WITH_AES_256_CBC_SHA256
        } else if i <= 80 {
            TLSCipherSuite::TLS_DH_anon_WITH_AES_128_CBC_SHA256
        } else if i <= 81 {
            TLSCipherSuite::TLS_DH_anon_WITH_AES_256_CBC_SHA256
        } else if i <= 82 {
            TLSCipherSuite::TLS_GOSTR341094_WITH_28147_CNT_IMIT
        } else if i <= 83 {
            TLSCipherSuite::TLS_GOSTR341001_WITH_28147_CNT_IMIT
        } else if i <= 84 {
            TLSCipherSuite::TLS_GOSTR341094_WITH_NULL_GOSTR3411
        } else if i <= 85 {
            TLSCipherSuite::TLS_GOSTR341001_WITH_NULL_GOSTR3411
        } else if i <= 86 {
            TLSCipherSuite::TLS_RSA_WITH_CAMELLIA_256_CBC_SHA
        } else if i <= 87 {
            TLSCipherSuite::TLS_DH_DSS_WITH_CAMELLIA_256_CBC_SHA
        } else if i <= 88 {
            TLSCipherSuite::TLS_DH_RSA_WITH_CAMELLIA_256_CBC_SHA
        } else if i <= 89 {
            TLSCipherSuite::TLS_DHE_DSS_WITH_CAMELLIA_256_CBC_SHA
        } else if i <= 90 {
            TLSCipherSuite::TLS_DHE_RSA_WITH_CAMELLIA_256_CBC_SHA
        } else if i <= 91 {
            TLSCipherSuite::TLS_DH_anon_WITH_CAMELLIA_256_CBC_SHA
        } else if i <= 92 {
            TLSCipherSuite::TLS_PSK_WITH_RC4_128_SHA
        } else if i <= 93 {
            TLSCipherSuite::TLS_PSK_WITH_3DES_EDE_CBC_SHA
        } else if i <= 94 {
            TLSCipherSuite::TLS_PSK_WITH_AES_128_CBC_SHA
        } else if i <= 95 {
            TLSCipherSuite::TLS_PSK_WITH_AES_256_CBC_SHA
        } else if i <= 96 {
            TLSCipherSuite::TLS_DHE_PSK_WITH_RC4_128_SHA
        } else if i <= 97 {
            TLSCipherSuite::TLS_DHE_PSK_WITH_3DES_EDE_CBC_SHA
        } else if i <= 98 {
            TLSCipherSuite::TLS_DHE_PSK_WITH_AES_128_CBC_SHA
        } else if i <= 99 {
            TLSCipherSuite::TLS_DHE_PSK_WITH_AES_256_CBC_SHA
        } else if i <= 100 {
            TLSCipherSuite::TLS_RSA_PSK_WITH_RC4_128_SHA
        } else if i <= 101 {
            TLSCipherSuite::TLS_RSA_PSK_WITH_3DES_EDE_CBC_SHA
        } else if i <= 102 {
            TLSCipherSuite::TLS_RSA_PSK_WITH_AES_128_CBC_SHA
        } else if i <= 103 {
            TLSCipherSuite::TLS_RSA_PSK_WITH_AES_256_CBC_SHA
        } else if i <= 104 {
            TLSCipherSuite::TLS_RSA_WITH_SEED_CBC_SHA
        } else if i <= 105 {
            TLSCipherSuite::TLS_DH_DSS_WITH_SEED_CBC_SHA
        } else if i <= 106 {
            TLSCipherSuite::TLS_DH_RSA_WITH_SEED_CBC_SHA
        } else if i <= 107 {
            TLSCipherSuite::TLS_DHE_DSS_WITH_SEED_CBC_SHA
        } else if i <= 108 {
            TLSCipherSuite::TLS_DHE_RSA_WITH_SEED_CBC_SHA
        } else if i <= 109 {
            TLSCipherSuite::TLS_DH_anon_WITH_SEED_CBC_SHA
        } else if i <= 110 {
            TLSCipherSuite::TLS_RSA_WITH_AES_128_GCM_SHA256
        } else if i <= 111 {
            TLSCipherSuite::TLS_RSA_WITH_AES_256_GCM_SHA384
        } else if i <= 112 {
            TLSCipherSuite::TLS_DHE_RSA_WITH_AES_128_GCM_SHA256
        } else if i <= 113 {
            TLSCipherSuite::TLS_DHE_RSA_WITH_AES_256_GCM_SHA384
        } else if i <= 114 {
            TLSCipherSuite::TLS_DH_RSA_WITH_AES_128_GCM_SHA256
        } else if i <= 115 {
            TLSCipherSuite::TLS_DH_RSA_WITH_AES_256_GCM_SHA384
        } else if i <= 116 {
            TLSCipherSuite::TLS_DHE_DSS_WITH_AES_128_GCM_SHA256
        } else if i <= 117 {
            TLSCipherSuite::TLS_DHE_DSS_WITH_AES_256_GCM_SHA384
        } else if i <= 118 {
            TLSCipherSuite::TLS_DH_DSS_WITH_AES_128_GCM_SHA256
        } else if i <= 119 {
            TLSCipherSuite::TLS_DH_DSS_WITH_AES_256_GCM_SHA384
        } else if i <= 120 {
            TLSCipherSuite::TLS_DH_anon_WITH_AES_128_GCM_SHA256
        } else if i <= 121 {
            TLSCipherSuite::TLS_DH_anon_WITH_AES_256_GCM_SHA384
        } else if i <= 122 {
            TLSCipherSuite::TLS_PSK_WITH_AES_128_GCM_SHA256
        } else if i <= 123 {
            TLSCipherSuite::TLS_PSK_WITH_AES_256_GCM_SHA384
        } else if i <= 124 {
            TLSCipherSuite::TLS_DHE_PSK_WITH_AES_128_GCM_SHA256
        } else if i <= 125 {
            TLSCipherSuite::TLS_DHE_PSK_WITH_AES_256_GCM_SHA384
        } else if i <= 126 {
            TLSCipherSuite::TLS_RSA_PSK_WITH_AES_128_GCM_SHA256
        } else if i <= 127 {
            TLSCipherSuite::TLS_RSA_PSK_WITH_AES_256_GCM_SHA384
        } else if i <= 128 {
            TLSCipherSuite::TLS_PSK_WITH_AES_128_CBC_SHA256
        } else if i <= 129 {
            TLSCipherSuite::TLS_PSK_WITH_AES_256_CBC_SHA384
        } else if i <= 130 {
            TLSCipherSuite::TLS_PSK_WITH_NULL_SHA256
        } else if i <= 131 {
            TLSCipherSuite::TLS_PSK_WITH_NULL_SHA384
        } else if i <= 132 {
            TLSCipherSuite::TLS_DHE_PSK_WITH_AES_128_CBC_SHA256
        } else if i <= 133 {
            TLSCipherSuite::TLS_DHE_PSK_WITH_AES_256_CBC_SHA384
        } else if i <= 134 {
            TLSCipherSuite::TLS_DHE_PSK_WITH_NULL_SHA256
        } else if i <= 135 {
            TLSCipherSuite::TLS_DHE_PSK_WITH_NULL_SHA384
        } else if i <= 136 {
            TLSCipherSuite::TLS_RSA_PSK_WITH_AES_128_CBC_SHA256
        } else if i <= 137 {
            TLSCipherSuite::TLS_RSA_PSK_WITH_AES_256_CBC_SHA384
        } else if i <= 138 {
            TLSCipherSuite::TLS_RSA_PSK_WITH_NULL_SHA256
        } else if i <= 139 {
            TLSCipherSuite::TLS_RSA_PSK_WITH_NULL_SHA384
        } else if i <= 140 {
            TLSCipherSuite::TLS_RSA_WITH_CAMELLIA_128_CBC_SHA256
        } else if i <= 141 {
            TLSCipherSuite::TLS_DH_DSS_WITH_CAMELLIA_128_CBC_SHA256
        } else if i <= 142 {
            TLSCipherSuite::TLS_DH_RSA_WITH_CAMELLIA_128_CBC_SHA256
        } else if i <= 143 {
            TLSCipherSuite::TLS_DHE_DSS_WITH_CAMELLIA_128_CBC_SHA256
        } else if i <= 144 {
            TLSCipherSuite::TLS_DHE_RSA_WITH_CAMELLIA_128_CBC_SHA256
        } else if i <= 145 {
            TLSCipherSuite::TLS_DH_anon_WITH_CAMELLIA_128_CBC_SHA256
        } else if i <= 146 {
            TLSCipherSuite::TLS_RSA_WITH_CAMELLIA_256_CBC_SHA256
        } else if i <= 147 {
            TLSCipherSuite::TLS_DH_DSS_WITH_CAMELLIA_256_CBC_SHA256
        } else if i <= 148 {
            TLSCipherSuite::TLS_DH_RSA_WITH_CAMELLIA_256_CBC_SHA256
        } else if i <= 149 {
            TLSCipherSuite::TLS_DHE_DSS_WITH_CAMELLIA_256_CBC_SHA256
        } else if i <= 150 {
            TLSCipherSuite::TLS_DHE_RSA_WITH_CAMELLIA_256_CBC_SHA256
        } else if i <= 151 {
            TLSCipherSuite::TLS_DH_anon_WITH_CAMELLIA_256_CBC_SHA256
        } else if i <= 152 {
            TLSCipherSuite::TLS_AES_128_GCM_SHA256
        } else if i <= 153 {
            TLSCipherSuite::TLS_AES_256_GCM_SHA384
        } else if i <= 154 {
            TLSCipherSuite::TLS_CHACHA20_POLY1305_SHA256
        } else if i <= 155 {
            TLSCipherSuite::TLS_AES_128_CCM_SHA256
        } else if i <= 156 {
            TLSCipherSuite::TLS_AES_128_CCM_8_SHA256
        } else if i <= 157 {
            TLSCipherSuite::TLS_ECDH_ECDSA_WITH_NULL_SHA
        } else if i <= 158 {
            TLSCipherSuite::TLS_ECDH_ECDSA_WITH_RC4_128_SHA
        } else if i <= 159 {
            TLSCipherSuite::TLS_ECDH_ECDSA_WITH_3DES_EDE_CBC_SHA
        } else if i <= 160 {
            TLSCipherSuite::TLS_ECDH_ECDSA_WITH_AES_128_CBC_SHA
        } else if i <= 161 {
            TLSCipherSuite::TLS_ECDH_ECDSA_WITH_AES_256_CBC_SHA
        } else if i <= 162 {
            TLSCipherSuite::TLS_ECDHE_ECDSA_WITH_NULL_SHA
        } else if i <= 163 {
            TLSCipherSuite::TLS_ECDHE_ECDSA_WITH_RC4_128_SHA
        } else if i <= 164 {
            TLSCipherSuite::TLS_ECDHE_ECDSA_WITH_3DES_EDE_CBC_SHA
        } else if i <= 165 {
            TLSCipherSuite::TLS_ECDHE_ECDSA_WITH_AES_128_CBC_SHA
        } else if i <= 166 {
            TLSCipherSuite::TLS_ECDHE_ECDSA_WITH_AES_256_CBC_SHA
        } else if i <= 167 {
            TLSCipherSuite::TLS_ECDH_RSA_WITH_NULL_SHA
        } else if i <= 168 {
            TLSCipherSuite::TLS_ECDH_RSA_WITH_RC4_128_SHA
        } else if i <= 169 {
            TLSCipherSuite::TLS_ECDH_RSA_WITH_3DES_EDE_CBC_SHA
        } else if i <= 170 {
            TLSCipherSuite::TLS_ECDH_RSA_WITH_AES_128_CBC_SHA
        } else if i <= 171 {
            TLSCipherSuite::TLS_ECDH_RSA_WITH_AES_256_CBC_SHA
        } else if i <= 172 {
            TLSCipherSuite::TLS_ECDHE_RSA_WITH_NULL_SHA
        } else if i <= 173 {
            TLSCipherSuite::TLS_ECDHE_RSA_WITH_RC4_128_SHA
        } else if i <= 174 {
            TLSCipherSuite::TLS_ECDHE_RSA_WITH_3DES_EDE_CBC_SHA
        } else if i <= 175 {
            TLSCipherSuite::TLS_ECDHE_RSA_WITH_AES_128_CBC_SHA
        } else if i <= 176 {
            TLSCipherSuite::TLS_ECDHE_RSA_WITH_AES_256_CBC_SHA
        } else if i <= 177 {
            TLSCipherSuite::TLS_ECDH_anon_WITH_NULL_SHA
        } else if i <= 178 {
            TLSCipherSuite::TLS_ECDH_anon_WITH_RC4_128_SHA
        } else if i <= 179 {
            TLSCipherSuite::TLS_ECDH_anon_WITH_3DES_EDE_CBC_SHA
        } else if i <= 180 {
            TLSCipherSuite::TLS_ECDH_anon_WITH_AES_128_CBC_SHA
        } else if i <= 181 {
            TLSCipherSuite::TLS_ECDH_anon_WITH_AES_256_CBC_SHA
        } else if i <= 182 {
            TLSCipherSuite::TLS_SRP_SHA_WITH_3DES_EDE_CBC_SHA
        } else if i <= 183 {
            TLSCipherSuite::TLS_SRP_SHA_RSA_WITH_3DES_EDE_CBC_SHA
        } else if i <= 184 {
            TLSCipherSuite::TLS_SRP_SHA_DSS_WITH_3DES_EDE_CBC_SHA
        } else if i <= 185 {
            TLSCipherSuite::TLS_SRP_SHA_WITH_AES_128_CBC_SHA
        } else if i <= 186 {
            TLSCipherSuite::TLS_SRP_SHA_RSA_WITH_AES_128_CBC_SHA
        } else if i <= 187 {
            TLSCipherSuite::TLS_SRP_SHA_DSS_WITH_AES_128_CBC_SHA
        } else if i <= 188 {
            TLSCipherSuite::TLS_SRP_SHA_WITH_AES_256_CBC_SHA
        } else if i <= 189 {
            TLSCipherSuite::TLS_SRP_SHA_RSA_WITH_AES_256_CBC_SHA
        } else if i <= 190 {
            TLSCipherSuite::TLS_SRP_SHA_DSS_WITH_AES_256_CBC_SHA
        } else if i <= 191 {
            TLSCipherSuite::TLS_ECDHE_ECDSA_WITH_AES_128_CBC_SHA256
        } else if i <= 192 {
            TLSCipherSuite::TLS_ECDHE_ECDSA_WITH_AES_256_CBC_SHA384
        } else if i <= 193 {
            TLSCipherSuite::TLS_ECDH_ECDSA_WITH_AES_128_CBC_SHA256
        } else if i <= 194 {
            TLSCipherSuite::TLS_ECDH_ECDSA_WITH_AES_256_CBC_SHA384
        } else if i <= 195 {
            TLSCipherSuite::TLS_ECDHE_RSA_WITH_AES_128_CBC_SHA256
        } else if i <= 196 {
            TLSCipherSuite::TLS_ECDHE_RSA_WITH_AES_256_CBC_SHA384
        } else if i <= 197 {
            TLSCipherSuite::TLS_ECDH_RSA_WITH_AES_128_CBC_SHA256
        } else if i <= 198 {
            TLSCipherSuite::TLS_ECDH_RSA_WITH_AES_256_CBC_SHA384
        } else if i <= 199 {
            TLSCipherSuite::TLS_ECDHE_ECDSA_WITH_AES_128_GCM_SHA256
        } else if i <= 200 {
            TLSCipherSuite::TLS_ECDHE_ECDSA_WITH_AES_256_GCM_SHA384
        } else if i <= 201 {
            TLSCipherSuite::TLS_ECDH_ECDSA_WITH_AES_128_GCM_SHA256
        } else if i <= 202 {
            TLSCipherSuite::TLS_ECDH_ECDSA_WITH_AES_256_GCM_SHA384
        } else if i <= 203 {
            TLSCipherSuite::TLS_ECDHE_RSA_WITH_AES_128_GCM_SHA256
        } else if i <= 204 {
            TLSCipherSuite::TLS_ECDHE_RSA_WITH_AES_256_GCM_SHA384
        } else if i <= 205 {
            TLSCipherSuite::TLS_ECDH_RSA_WITH_AES_128_GCM_SHA256
        } else if i <= 206 {
            TLSCipherSuite::TLS_ECDH_RSA_WITH_AES_256_GCM_SHA384
        } else if i <= 207 {
            TLSCipherSuite::TLS_ECDHE_PSK_WITH_RC4_128_SHA
        } else if i <= 208 {
            TLSCipherSuite::TLS_ECDHE_PSK_WITH_3DES_EDE_CBC_SHA
        } else if i <= 209 {
            TLSCipherSuite::TLS_ECDHE_PSK_WITH_AES_128_CBC_SHA
        } else if i <= 210 {
            TLSCipherSuite::TLS_ECDHE_PSK_WITH_AES_256_CBC_SHA
        } else if i <= 211 {
            TLSCipherSuite::TLS_ECDHE_PSK_WITH_AES_128_CBC_SHA256
        } else if i <= 212 {
            TLSCipherSuite::TLS_ECDHE_PSK_WITH_AES_256_CBC_SHA384
        } else if i <= 213 {
            TLSCipherSuite::TLS_ECDHE_PSK_WITH_NULL_SHA
        } else if i <= 214 {
            TLSCipherSuite::TLS_ECDHE_PSK_WITH_NULL_SHA256
        } else if i <= 215 {
            TLSCipherSuite::TLS_ECDHE_PSK_WITH_NULL_SHA384
        } else if i <= 216 {
            TLSCipherSuite::TLS_RSA_WITH_ARIA_128_GCM_SHA256
        } else if i <= 217 {
            TLSCipherSuite::TLS_RSA_WITH_ARIA_256_GCM_SHA384
        } else if i <= 218 {
            TLSCipherSuite::TLS_DHE_RSA_WITH_ARIA_128_GCM_SHA256
        } else if i <= 219 {
            TLSCipherSuite::TLS_DHE_RSA_WITH_ARIA_256_GCM_SHA384
        } else if i <= 220 {
            TLSCipherSuite::TLS_DHE_DSS_WITH_ARIA_128_GCM_SHA256
        } else if i <= 221 {
            TLSCipherSuite::TLS_DHE_DSS_WITH_ARIA_256_GCM_SHA384
        } else if i <= 222 {
            TLSCipherSuite::TLS_ECDHE_ECDSA_WITH_ARIA_128_GCM_SHA256
        } else if i <= 223 {
            TLSCipherSuite::TLS_ECDHE_ECDSA_WITH_ARIA_256_GCM_SHA384
        } else if i <= 224 {
            TLSCipherSuite::TLS_ECDHE_RSA_WITH_ARIA_128_GCM_SHA256
        } else if i <= 225 {
            TLSCipherSuite::TLS_ECDHE_RSA_WITH_ARIA_256_GCM_SHA384
        } else if i <= 226 {
            TLSCipherSuite::TLS_PSK_WITH_ARIA_128_GCM_SHA256
        } else if i <= 227 {
            TLSCipherSuite::TLS_PSK_WITH_ARIA_256_GCM_SHA384
        } else if i <= 228 {
            TLSCipherSuite::TLS_DHE_PSK_WITH_ARIA_128_GCM_SHA256
        } else if i <= 229 {
            TLSCipherSuite::TLS_DHE_PSK_WITH_ARIA_256_GCM_SHA384
        } else if i <= 230 {
            TLSCipherSuite::TLS_RSA_PSK_WITH_ARIA_128_GCM_SHA256
        } else if i <= 231 {
            TLSCipherSuite::TLS_RSA_PSK_WITH_ARIA_256_GCM_SHA384
        } else if i <= 232 {
            TLSCipherSuite::TLS_ECDHE_ECDSA_WITH_CAMELLIA_128_CBC_SHA256
        } else if i <= 233 {
            TLSCipherSuite::TLS_ECDHE_ECDSA_WITH_CAMELLIA_256_CBC_SHA384
        } else if i <= 234 {
            TLSCipherSuite::TLS_ECDH_ECDSA_WITH_CAMELLIA_128_CBC_SHA256
        } else if i <= 235 {
            TLSCipherSuite::TLS_ECDH_ECDSA_WITH_CAMELLIA_256_CBC_SHA384
        } else if i <= 236 {
            TLSCipherSuite::TLS_ECDHE_RSA_WITH_CAMELLIA_128_CBC_SHA256
        } else if i <= 237 {
            TLSCipherSuite::TLS_ECDHE_RSA_WITH_CAMELLIA_256_CBC_SHA384
        } else if i <= 238 {
            TLSCipherSuite::TLS_ECDH_RSA_WITH_CAMELLIA_128_CBC_SHA256
        } else if i <= 239 {
            TLSCipherSuite::TLS_ECDH_RSA_WITH_CAMELLIA_256_CBC_SHA384
        } else if i <= 240 {
            TLSCipherSuite::TLS_PSK_WITH_CAMELLIA_128_CBC_SHA256
        } else if i <= 241 {
            TLSCipherSuite::TLS_PSK_WITH_CAMELLIA_256_CBC_SHA384
        } else if i <= 242 {
            TLSCipherSuite::TLS_DHE_PSK_WITH_CAMELLIA_128_CBC_SHA256
        } else if i <= 243 {
            TLSCipherSuite::TLS_DHE_PSK_WITH_CAMELLIA_256_CBC_SHA384
        } else if i <= 244 {
            TLSCipherSuite::TLS_RSA_PSK_WITH_CAMELLIA_128_CBC_SHA256
        } else if i <= 245 {
            TLSCipherSuite::TLS_RSA_PSK_WITH_CAMELLIA_256_CBC_SHA384
        } else if i <= 246 {
            TLSCipherSuite::TLS_ECDHE_PSK_WITH_CAMELLIA_128_CBC_SHA256
        } else if i <= 247 {
            TLSCipherSuite::TLS_ECDHE_PSK_WITH_CAMELLIA_256_CBC_SHA384
        } else if i <= 248 {
            TLSCipherSuite::TLS_RSA_WITH_AES_128_CCM
        } else if i <= 249 {
            TLSCipherSuite::TLS_RSA_WITH_AES_256_CCM
        } else if i <= 250 {
            TLSCipherSuite::TLS_DHE_RSA_WITH_AES_128_CCM
        } else if i <= 251 {
            TLSCipherSuite::TLS_DHE_RSA_WITH_AES_256_CCM
        } else if i <= 252 {
            TLSCipherSuite::TLS_RSA_WITH_AES_128_CCM_8
        } else if i <= 253 {
            TLSCipherSuite::TLS_RSA_WITH_AES_256_CCM_8
        } else if i <= 254 {
            TLSCipherSuite::TLS_DHE_RSA_WITH_AES_128_CCM_8
        } else if i <= 255 {
            TLSCipherSuite::TLS_DHE_RSA_WITH_AES_256_CCM_8
        } else if i <= 256 {
            TLSCipherSuite::TLS_PSK_WITH_AES_128_CCM
        } else if i <= 257 {
            TLSCipherSuite::TLS_PSK_WITH_AES_256_CCM
        } else if i <= 258 {
            TLSCipherSuite::TLS_DHE_PSK_WITH_AES_128_CCM
        } else if i <= 259 {
            TLSCipherSuite::TLS_DHE_PSK_WITH_AES_256_CCM
        } else if i <= 260 {
            TLSCipherSuite::TLS_PSK_WITH_AES_128_CCM_8
        } else if i <= 261 {
            TLSCipherSuite::TLS_PSK_WITH_AES_256_CCM_8
        } else if i <= 262 {
            TLSCipherSuite::TLS_PSK_DHE_WITH_AES_128_CCM_8
        } else if i <= 263 {
            TLSCipherSuite::TLS_PSK_DHE_WITH_AES_256_CCM_8
        } else if i <= 264 {
            TLSCipherSuite::TLS_ECDHE_ECDSA_WITH_AES_128_CCM
        } else if i <= 265 {
            TLSCipherSuite::TLS_ECDHE_ECDSA_WITH_AES_256_CCM
        } else if i <= 266 {
            TLSCipherSuite::TLS_ECDHE_ECDSA_WITH_AES_128_CCM_8
        } else if i <= 267 {
            TLSCipherSuite::TLS_ECDHE_ECDSA_WITH_AES_256_CCM_8
        } else if i <= 268 {
            TLSCipherSuite::OLD_TLS_ECDHE_RSA_WITH_CHACHA20_POLY1305_SHA256
        } else if i <= 269 {
            TLSCipherSuite::OLD_TLS_ECDHE_ECDSA_WITH_CHACHA20_POLY1305_SHA256
        } else if i <= 270 {
            TLSCipherSuite::OLD_TLS_DHE_RSA_WITH_CHACHA20_POLY1305_SHA256
        } else if i <= 271 {
            TLSCipherSuite::TLS_ECDHE_RSA_WITH_CHACHA20_POLY1305_SHA256
        } else if i <= 272 {
            TLSCipherSuite::TLS_ECDHE_ECDSA_WITH_CHACHA20_POLY1305_SHA256
        } else if i <= 273 {
            TLSCipherSuite::TLS_DHE_RSA_WITH_CHACHA20_POLY1305_SHA256
        } else if i <= 274 {
            TLSCipherSuite::TLS_PSK_WITH_CHACHA20_POLY1305_SHA256
        } else if i <= 275 {
            TLSCipherSuite::TLS_ECDHE_PSK_WITH_CHACHA20_POLY1305_SHA256
        } else if i <= 276 {
            TLSCipherSuite::TLS_DHE_PSK_WITH_CHACHA20_POLY1305_SHA256
        } else {
            TLSCipherSuite::TLS_RSA_PSK_WITH_CHACHA20_POLY1305_SHA256
        }
    }

    /// Every suite, in declaration order.
    pub open spec fn spec_all() -> Seq<Self> {
        Seq::new(TLS_SUITE_COUNT as nat, |i: int| Self::spec_at(i))
    }

    /// The suite whose OpenSSL spelling is `name`, if there is one.
    pub open spec fn spec_from_openssl_name(name: Seq<char>) -> Option<Self> {
        if exists|c: Self| c.spec_openssl_name() == name {
            Some(choose|c: Self| c.spec_openssl_name() == name)
        } else {
            None
        }
    }

    /// The suite whose RFC identifier is `name`, if there is one.
    pub open spec fn spec_from_rfc_name(name: Seq<char>) -> Option<Self> {
        if exists|c: Self| c.spec_rfc_name() == name {
            Some(choose|c: Self| c.spec_rfc_name() == name)
        } else {
            None
        }
    }

    /// The OpenSSL spelling of the suite.
    pub fn as_openssl_name(&self) -> (r: &'static str)
        ensures
            r@ == self.spec_openssl_name(),
    {
        match self {
            TLSCipherSuite::TLS_RSA_WITH_NULL_MD5 => "NULL-MD5",
            TLSCipherSuite::TLS_RSA_WITH_NULL_SHA => "NULL-SHA",
            TLSCipherSuite::TLS_RSA_EXPORT_WITH_RC4_40_MD5 => "EXP-RC4-MD5",
            TLSCipherSuite::TLS_RSA_WITH_RC4_128_MD5 => "RC4-MD5",
            TLSCipherSuite::TLS_RSA_WITH_RC4_128_SHA => "RC4-SHA",
            TLSCipherSuite::TLS_RSA_EXPORT_WITH_RC2_CBC_40_MD5 => "EXP-RC2-CBC-MD5",
            TLSCipherSuite::TLS_RSA_WITH_IDEA_CBC_SHA => "IDEA-CBC-SHA",
            TLSCipherSuite::TLS_RSA_EXPORT_WITH_DES40_CBC_SHA => "EXP-DES-CBC-SHA",
            TLSCipherSuite::TLS_RSA_WITH_DES_CBC_SHA => "DES-CBC-SHA",
            TLSCipherSuite::TLS_RSA_WITH_3DES_EDE_CBC_SHA => "DES-CBC3-SHA",
            TLSCipherSuite::TLS_DH_DSS_EXPORT_WITH_DES40_CBC_SHA => "EXP-DH-DSS-DES-CBC-SHA",
            TLSCipherSuite::TLS_DH_DSS_WITH_DES_CBC_SHA => "DH-DSS-DES-CBC-SHA",
            TLSCipherSuite::TLS_DH_DSS_WITH_3DES_EDE_CBC_SHA => "DH-DSS-DES-CBC3-SHA",
            TLSCipherSuite::TLS_DH_RSA_EXPORT_WITH_DES40_CBC_SHA => "EXP-DH-RSA-DES-CBC-SHA",
            TLSCipherSuite::TLS_DH_RSA_WITH_DES_CBC_SHA => "DH-RSA-DES-CBC-SHA",
            TLSCipherSuite::TLS_DH_RSA_WITH_3DES_EDE_CBC_SHA => "DH-RSA-DES-CBC3-SHA",
            TLSCipherSuite::TLS_DHE_DSS_EXPORT_WITH_DES40_CBC_SHA => "EXP-EDH-DSS-DES-CBC-SHA",
            TLSCipherSuite::TLS_DHE_DSS_WITH_DES_CBC_SHA => "EDH-DSS-DES-CBC-SHA",
            TLSCipherSuite::TLS_DHE_DSS_WITH_3DES_EDE_CBC_SHA => "DHE-DSS-DES-CBC3-SHA",
            TLSCipherSuite::TLS_DHE_RSA_EXPORT_WITH_DES40_CBC_SHA => "EXP-EDH-RSA-DES-CBC-SHA",
            TLSCipherSuite::TLS_DHE_RSA_WITH_DES_CBC_SHA => "EDH-RSA-DES-CBC-SHA",
            TLSCipherSuite::TLS_DHE_RSA_WITH_3DES_EDE_CBC_SHA => "DHE-RSA-DES-CBC3-SHA",
            TLSCipherSuite::TLS_DH_anon_EXPORT_WITH_RC4_40_MD5 => "EXP-ADH-RC4-MD5",
            TLSCipherSuite::TLS_DH_anon_WITH_RC4_128_MD5 => "ADH-RC4-MD5",
            TLSCipherSuite::TLS_DH_anon_EXPORT_WITH_DES40_CBC_SHA => "EXP-ADH-DES-CBC-SHA",
            TLSCipherSuite::TLS_DH_anon_WITH_DES_CBC_SHA => "ADH-DES-CBC-SHA",
            TLSCipherSuite::TLS_DH_anon_WITH_3DES_EDE_CBC_SHA => "ADH-DES-CBC3-SHA",
            TLSCipherSuite::TLS_KRB5_WITH_DES_CBC_SHA => "KRB5-DES-CBC-SHA",
            TLSCipherSuite::TLS_KRB5_WITH_3DES_EDE_CBC_SHA => "KRB5-DES-CBC3-SHA",
            TLSCipherSuite::TLS_KRB5_WITH_RC4_128_SHA => "KRB5-RC4-SHA",
            TLSCipherSuite::TLS_KRB5_WITH_IDEA_CBC_SHA => "KRB5-IDEA-CBC-SHA",
            TLSCipherSuite::TLS_KRB5_WITH_DES_CBC_MD5 => "KRB5-DES-CBC-MD5",
            TLSCipherSuite::TLS_KRB5_WITH_3DES_EDE_CBC_MD5 => "KRB5-DES-CBC3-MD5",
            TLSCipherSuite::TLS_KRB5_WITH_RC4_128_MD5 => "KRB5-RC4-MD5",
            TLSCipherSuite::TLS_KRB5_WITH_IDEA_CBC_MD5 => "KRB5-IDEA-CBC-MD5",
            TLSCipherSuite::TLS_KRB5_EXPORT_WITH_DES_CBC_40_SHA => "EXP-KRB5-DES-CBC-SHA",
            TLSCipherSuite::TLS_KRB5_EXPORT_WITH_RC2_CBC_40_SHA => "EXP-KRB5-RC2-CBC-SHA",
            TLSCipherSuite::TLS_KRB5_EXPORT_WITH_RC4_40_SHA => "EXP-KRB5-RC4-SHA",
            TLSCipherSuite::TLS_KRB5_EXPORT_WITH_DES_CBC_40_MD5 => "EXP-KRB5-DES-CBC-MD5",
            TLSCipherSuite::TLS_KRB5_EXPORT_WITH_RC2_CBC_40_MD5 => "EXP-KRB5-RC2-CBC-MD5",
            TLSCipherSuite::TLS_KRB5_EXPORT_WITH_RC4_40_MD5 => "EXP-KRB5-RC4-MD5",
            TLSCipherSuite::TLS_PSK_WITH_NULL_SHA => "PSK-NULL-SHA",
            TLSCipherSuite::TLS_DHE_PSK_WITH_NULL_SHA => "DHE-PSK-NULL-SHA",
            TLSCipherSuite::TLS_RSA_PSK_WITH_NULL_SHA => "RSA-PSK-NULL-SHA",
            TLSCipherSuite::TLS_RSA_WITH_AES_128_CBC_SHA => "AES128-SHA",
            TLSCipherSuite::TLS_DH_DSS_WITH_AES_128_CBC_SHA => "DH-DSS-AES128-SHA",
            TLSCipherSuite::TLS_DH_RSA_WITH_AES_128_CBC_SHA => "DH-RSA-AES128-SHA",
            TLSCipherSuite::TLS_DHE_DSS_WITH_AES_128_CBC_SHA => "DHE-DSS-AES128-SHA",
            TLSCipherSuite::TLS_DHE_RSA_WITH_AES_128_CBC_SHA => "DHE-RSA-AES128-SHA",
            TLSCipherSuite::TLS_DH_anon_WITH_AES_128_CBC_SHA => "ADH-AES128-SHA",
            TLSCipherSuite::TLS_RSA_WITH_AES_256_CBC_SHA => "AES256-SHA",
            TLSCipherSuite::TLS_DH_DSS_WITH_AES_256_CBC_SHA => "DH-DSS-AES256-SHA",
            TLSCipherSuite::TLS_DH_RSA_WITH_AES_256_CBC_SHA => "DH-RSA-AES256-SHA",
            TLSCipherSuite::TLS_DHE_DSS_WITH_AES_256_CBC_SHA => "DHE-DSS-AES256-SHA",
            TLSCipherSuite::TLS_DHE_RSA_WITH_AES_256_CBC_SHA => "DHE-RSA-AES256-SHA",
            TLSCipherSuite::TLS_DH_anon_WITH_AES_256_CBC_SHA => "ADH-AES256-SHA",
            TLSCipherSuite::TLS_RSA_WITH_NULL_SHA256 => "NULL-SHA256",
            TLSCipherSuite::TLS_RSA_WITH_AES_128_CBC_SHA256 => "AES128-SHA256",
            TLSCipherSuite::TLS_RSA_WITH_AES_256_CBC_SHA256 => "AES256-SHA256",
            TLSCipherSuite::TLS_DH_DSS_WITH_AES_128_CBC_SHA256 => "DH-DSS-AES128-SHA256",
            TLSCipherSuite::TLS_DH_RSA_WITH_AES_128_CBC_SHA256 => "DH-RSA-AES128-SHA256",
            TLSCipherSuite::TLS_DHE_DSS_WITH_AES_128_CBC_SHA256 => "DHE-DSS-AES128-SHA256",
            TLSCipherSuite::TLS_RSA_WITH_CAMELLIA_128_CBC_SHA => "CAMELLIA128-SHA",
            TLSCipherSuite::TLS_DH_DSS_WITH_CAMELLIA_128_CBC_SHA => "DH-DSS-CAMELLIA128-SHA",
            TLSCipherSuite::TLS_DH_RSA_WITH_CAMELLIA_128_CBC_SHA => "DH-RSA-CAMELLIA128-SHA",
            TLSCipherSuite::TLS_DHE_DSS_WITH_CAMELLIA_128_CBC_SHA => "DHE-DSS-CAMELLIA128-SHA",
            TLSCipherSuite::TLS_DHE_RSA_WITH_CAMELLIA_128_CBC_SHA => "DHE-RSA-CAMELLIA128-SHA",
            TLSCipherSuite::TLS_DH_anon_WITH_CAMELLIA_128_CBC_SHA => "ADH-CAMELLIA128-SHA",
            TLSCipherSuite::TLS_RSA_EXPORT1024_WITH_RC4_56_MD5 => "EXP1024-RC4-MD5",
            TLSCipherSuite::TLS_RSA_EXPORT1024_WITH_RC2_CBC_56_MD5 => "EXP1024-RC2-CBC-MD5",
            TLSCipherSuite::TLS_RSA_EXPORT1024_WITH_DES_CBC_SHA => "EXP1024-DES-CBC-SHA",
            TLSCipherSuite::TLS_DHE_DSS_EXPORT1024_WITH_DES_CBC_SHA => "EXP1024-DHE-DSS-DES-CBC-SHA",
            TLSCipherSuite::TLS_RSA_EXPORT1024_WITH_RC4_56_SHA => "EXP1024-RC4-SHA",
            TLSCipherSuite::TLS_DHE_DSS_EXPORT1024_WITH_RC4_56_SHA => "EXP1024-DHE-DSS-RC4-SHA",
            TLSCipherSuite::TLS_DHE_DSS_WITH_RC4_128_SHA => "DHE-DSS-RC4-SHA",
            TLSCipherSuite::TLS_DHE_RSA_WITH_AES_128_CBC_SHA256 => "DHE-RSA-AES128-SHA256",
            TLSCipherSuite::TLS_DH_DSS_WITH_AES_256_CBC_SHA256 => "DH-DSS-AES256-SHA256",
            TLSCipherSuite::TLS_DH_RSA_WITH_AES_256_CBC_SHA256 => "DH-RSA-AES256-SHA256",
            TLSCipherSuite::TLS_DHE_DSS_WITH_AES_256_CBC_SHA256 => "DHE-DSS-AES256-SHA256",
            TLSCipherSuite::TLS_DHE_RSA_WITH_AES_256_CBC_SHA256 => "DHE-RSA-AES256-SHA256",
            TLSCipherSuite::TLS_DH_anon_WITH_AES_128_CBC_SHA256 => "ADH-AES128-SHA256",
            TLSCipherSuite::TLS_DH_anon_WITH_AES_256_CBC_SHA256 => "ADH-AES256-SHA256",
            TLSCipherSuite::TLS_GOSTR341094_WITH_28147_CNT_IMIT => "GOST94-GOST89-GOST89",
            TLSCipherSuite::TLS_GOSTR341001_WITH_28147_CNT_IMIT => "GOST2001-GOST89-GOST89",
            TLSCipherSuite::TLS_GOSTR341094_WITH_NULL_GOSTR3411 => "GOST94-NULL-GOST94",
            TLSCipherSuite::TLS_GOSTR341001_WITH_NULL_GOSTR3411 => "GOST2001-NULL-GOST94",
            TLSCipherSuite::TLS_RSA_WITH_CAMELLIA_256_CBC_SHA => "CAMELLIA256-SHA",
            TLSCipherSuite::TLS_DH_DSS_WITH_CAMELLIA_256_CBC_SHA => "DH-DSS-CAMELLIA256-SHA",
            TLSCipherSuite::TLS_DH_RSA_WITH_CAMELLIA_256_CBC_SHA => "DH-RSA-CAMELLIA256-SHA",
            TLSCipherSuite::TLS_DHE_DSS_WITH_CAMELLIA_256_CBC_SHA => "DHE-DSS-CAMELLIA256-SHA",
            TLSCipherSuite::TLS_DHE_RSA_WITH_CAMELLIA_256_CBC_SHA => "DHE-RSA-CAMELLIA256-SHA",
            TLSCipherSuite::TLS_DH_anon_WITH_CAMELLIA_256_CBC_SHA => "ADH-CAMELLIA256-SHA",
            TLSCipherSuite::TLS_PSK_WITH_RC4_128_SHA => "PSK-RC4-SHA",
            TLSCipherSuite::TLS_PSK_WITH_3DES_EDE_CBC_SHA => "PSK-3DES-EDE-CBC-SHA",
            TLSCipherSuite::TLS_PSK_WITH_AES_128_CBC_SHA => "PSK-AES128-CBC-SHA",
            TLSCipherSuite::TLS_PSK_WITH_AES_256_CBC_SHA => "PSK-AES256-CBC-SHA",
            TLSCipherSuite::TLS_DHE_PSK_WITH_RC4_128_SHA => "DHE-PSK-RC4-SHA",
            TLSCipherSuite::TLS_DHE_PSK_WITH_3DES_EDE_CBC_SHA => "DHE-PSK-3DES-EDE-CBC-SHA",
            TLSCipherSuite::TLS_DHE_PSK_WITH_AES_128_CBC_SHA => "DHE-PSK-AES128-CBC-SHA",
            TLSCipherSuite::TLS_DHE_PSK_WITH_AES_256_CBC_SHA => "DHE-PSK-AES256-CBC-SHA",
            TLSCipherSuite::TLS_RSA_PSK_WITH_RC4_128_SHA => "RSA-PSK-RC4-SHA",
            TLSCipherSuite::TLS_RSA_PSK_WITH_3DES_EDE_CBC_SHA => "RSA-PSK-3DES-EDE-CBC-SHA",
            TLSCipherSuite::TLS_RSA_PSK_WITH_AES_128_CBC_SHA => "RSA-PSK-AES128-CBC-SHA",
            TLSCipherSuite::TLS_RSA_PSK_WITH_AES_256_CBC_SHA => "RSA-PSK-AES256-CBC-SHA",
            TLSCipherSuite::TLS_RSA_WITH_SEED_CBC_SHA => "SEED-SHA",
            TLSCipherSuite::TLS_DH_DSS_WITH_SEED_CBC_SHA => "DH-DSS-SEED-SHA",
            TLSCipherSuite::TLS_DH_RSA_WITH_SEED_CBC_SHA => "DH-RSA-SEED-SHA",
            TLSCipherSuite::TLS_DHE_DSS_WITH_SEED_CBC_SHA => "DHE-DSS-SEED-SHA",
            TLSCipherSuite::TLS_DHE_RSA_WITH_SEED_CBC_SHA => "DHE-RSA-SEED-SHA",
            TLSCipherSuite::TLS_DH_anon_WITH_SEED_CBC_SHA => "ADH-SEED-SHA",
            TLSCipherSuite::TLS_RSA_WITH_AES_128_GCM_SHA256 => "AES128-GCM-SHA256",
            TLSCipherSuite::TLS_RSA_WITH_AES_256_GCM_SHA384 => "AES256-GCM-SHA384",
            TLSCipherSuite::TLS_DHE_RSA_WITH_AES_128_GCM_SHA256 => "DHE-RSA-AES128-GCM-SHA256",
            TLSCipherSuite::TLS_DHE_RSA_WITH_AES_256_GCM_SHA384 => "DHE-RSA-AES256-GCM-SHA384",
            TLSCipherSuite::TLS_DH_RSA_WITH_AES_128_GCM_SHA256 => "DH-RSA-AES128-GCM-SHA256",
            TLSCipherSuite::TLS_DH_RSA_WITH_AES_256_GCM_SHA384 => "DH-RSA-AES256-GCM-SHA384",
            TLSCipherSuite::TLS_DHE_DSS_WITH_AES_128_GCM_SHA256 => "DHE-DSS-AES128-GCM-SHA256",
            TLSCipherSuite::TLS_DHE_DSS_WITH_AES_256_GCM_SHA384 => "DHE-DSS-AES256-GCM-SHA384",
            TLSCipherSuite::TLS_DH_DSS_WITH_AES_128_GCM_SHA256 => "DH-DSS-AES128-GCM-SHA256",
            TLSCipherSuite::TLS_DH_DSS_WITH_AES_256_GCM_SHA384 => "DH-DSS-AES256-GCM-SHA384",
            TLSCipherSuite::TLS_DH_anon_WITH_AES_128_GCM_SHA256 => "ADH-AES128-GCM-SHA256",
            TLSCipherSuite::TLS_DH_anon_WITH_AES_256_GCM_SHA384 => "ADH-AES256-GCM-SHA384",
            TLSCipherSuite::TLS_PSK_WITH_AES_128_GCM_SHA256 => "PSK-AES128-GCM-SHA256",
            TLSCipherSuite::TLS_PSK_WITH_AES_256_GCM_SHA384 => "PSK-AES256-GCM-SHA384",
            TLSCipherSuite::TLS_DHE_PSK_WITH_AES_128_GCM_SHA256 => "DHE-PSK-AES128-GCM-SHA256",
            TLSCipherSuite::TLS_DHE_PSK_WITH_AES_256_GCM_SHA384 => "DHE-PSK-AES256-GCM-SHA384",
            TLSCipherSuite::TLS_RSA_PSK_WITH_AES_128_GCM_SHA256 => "RSA-PSK-AES128-GCM-SHA256",
            TLSCipherSuite::TLS_RSA_PSK_WITH_AES_256_GCM_SHA384 => "RSA-PSK-AES256-GCM-SHA384",
            TLSCipherSuite::TLS_PSK_WITH_AES_128_CBC_SHA256 => "PSK-AES128-CBC-SHA256",
            TLSCipherSuite::TLS_PSK_WITH_AES_256_CBC_SHA384 => "PSK-AES256-CBC-SHA384",
            TLSCipherSuite::TLS_PSK_WITH_NULL_SHA256 => "PSK-NULL-SHA256",
            TLSCipherSuite::TLS_PSK_WITH_NULL_SHA384 => "PSK-NULL-SHA384",
            TLSCipherSuite::TLS_DHE_PSK_WITH_AES_128_CBC_SHA256 => "DHE-PSK-AES128-CBC-SHA256",
            TLSCipherSuite::TLS_DHE_PSK_WITH_AES_256_CBC_SHA384 => "DHE-PSK-AES256-CBC-SHA384",
            TLSCipherSuite::TLS_DHE_PSK_WITH_NULL_SHA256 => "DHE-PSK-NULL-SHA256",
            TLSCipherSuite::TLS_DHE_PSK_WITH_NULL_SHA384 => "DHE-PSK-NULL-SHA384",
            TLSCipherSuite::TLS_RSA_PSK_WITH_AES_128_CBC_SHA256 => "RSA-PSK-AES128-CBC-SHA256",
            TLSCipherSuite::TLS_RSA_PSK_WITH_AES_256_CBC_SHA384 => "RSA-PSK-AES256-CBC-SHA384",
            TLSCipherSuite::TLS_RSA_PSK_WITH_NULL_SHA256 => "RSA-PSK-NULL-SHA256",
            TLSCipherSuite::TLS_RSA_PSK_WITH_NULL_SHA384 => "RSA-PSK-NULL-SHA384",
            TLSCipherSuite::TLS_RSA_WITH_CAMELLIA_128_CBC_SHA256 => "CAMELLIA128-SHA256",
            TLSCipherSuite::TLS_DH_DSS_WITH_CAMELLIA_128_CBC_SHA256 => "DH-DSS-CAMELLIA128-SHA256",
            TLSCipherSuite::TLS_DH_RSA_WITH_CAMELLIA_128_CBC_SHA256 => "DH-RSA-CAMELLIA128-SHA256",
            TLSCipherSuite::TLS_DHE_DSS_WITH_CAMELLIA_128_CBC_SHA256 => "DHE-DSS-CAMELLIA128-SHA256",
            TLSCipherSuite::TLS_DHE_RSA_WITH_CAMELLIA_128_CBC_SHA256 => "DHE-RSA-CAMELLIA128-SHA256",
            TLSCipherSuite::TLS_DH_anon_WITH_CAMELLIA_128_CBC_SHA256 => "ADH-CAMELLIA128-SHA256",
            TLSCipherSuite::TLS_RSA_WITH_CAMELLIA_256_CBC_SHA256 => "CAMELLIA256-SHA256",
            TLSCipherSuite::TLS_DH_DSS_WITH_CAMELLIA_256_CBC_SHA256 => "DH-DSS-CAMELLIA256-SHA256",
            TLSCipherSuite::TLS_DH_RSA_WITH_CAMELLIA_256_CBC_SHA256 => "DH-RSA-CAMELLIA256-SHA256",
            TLSCipherSuite::TLS_DHE_DSS_WITH_CAMELLIA_256_CBC_SHA256 => "DHE-DSS-CAMELLIA256-SHA256",
            TLSCipherSuite::TLS_DHE_RSA_WITH_CAMELLIA_256_CBC_SHA256 => "DHE-RSA-CAMELLIA256-SHA256",
            TLSCipherSuite::TLS_DH_anon_WITH_CAMELLIA_256_CBC_SHA256 => "ADH-CAMELLIA256-SHA256",
            TLSCipherSuite::TLS_AES_128_GCM_SHA256 => "TLS_AES_128_GCM_SHA256",
            TLSCipherSuite::TLS_AES_256_GCM_SHA384 => "TLS_AES_256_GCM_SHA384",
            TLSCipherSuite::TLS_CHACHA20_POLY1305_SHA256 => "TLS_CHACHA20_POLY1305_SHA256",
            TLSCipherSuite::TLS_AES_128_CCM_SHA256 => "TLS_AES_128_CCM_SHA256",
            TLSCipherSuite::TLS_AES_128_CCM_8_SHA256 => "TLS_AES_128_CCM_8_SHA256",
            TLSCipherSuite::TLS_ECDH_ECDSA_WITH_NULL_SHA => "ECDH-ECDSA-NULL-SHA",
            TLSCipherSuite::TLS_ECDH_ECDSA_WITH_RC4_128_SHA => "ECDH-ECDSA-RC4-SHA",
            TLSCipherSuite::TLS_ECDH_ECDSA_WITH_3DES_EDE_CBC_SHA => "ECDH-ECDSA-DES-CBC3-SHA",
            TLSCipherSuite::TLS_ECDH_ECDSA_WITH_AES_128_CBC_SHA => "ECDH-ECDSA-AES128-SHA",
            TLSCipherSuite::TLS_ECDH_ECDSA_WITH_AES_256_CBC_SHA => "ECDH-ECDSA-AES256-SHA",
            TLSCipherSuite::TLS_ECDHE_ECDSA_WITH_NULL_SHA => "ECDHE-ECDSA-NULL-SHA",
            TLSCipherSuite::TLS_ECDHE_ECDSA_WITH_RC4_128_SHA => "ECDHE-ECDSA-RC4-SHA",
            TLSCipherSuite::TLS_ECDHE_ECDSA_WITH_3DES_EDE_CBC_SHA => "ECDHE-ECDSA-DES-CBC3-SHA",
            TLSCipherSuite::TLS_ECDHE_ECDSA_WITH_AES_128_CBC_SHA => "ECDHE-ECDSA-AES128-SHA",
            TLSCipherSuite::TLS_ECDHE_ECDSA_WITH_AES_256_CBC_SHA => "ECDHE-ECDSA-AES256-SHA",
            TLSCipherSuite::TLS_ECDH_RSA_WITH_NULL_SHA => "ECDH-RSA-NULL-SHA",
            TLSCipherSuite::TLS_ECDH_RSA_WITH_RC4_128_SHA => "ECDH-RSA-RC4-SHA",
            TLSCipherSuite::TLS_ECDH_RSA_WITH_3DES_EDE_CBC_SHA => "ECDH-RSA-DES-CBC3-SHA",
            TLSCipherSuite::TLS_ECDH_RSA_WITH_AES_128_CBC_SHA => "ECDH-RSA-AES128-SHA",
            TLSCipherSuite::TLS_ECDH_RSA_WITH_AES_256_CBC_SHA => "ECDH-RSA-AES256-SHA",
            TLSCipherSuite::TLS_ECDHE_RSA_WITH_NULL_SHA => "ECDHE-RSA-NULL-SHA",
            TLSCipherSuite::TLS_ECDHE_RSA_WITH_RC4_128_SHA => "ECDHE-RSA-RC4-SHA",
            TLSCipherSuite::TLS_ECDHE_RSA_WITH_3DES_EDE_CBC_SHA => "ECDHE-RSA-DES-CBC3-SHA",
            TLSCipherSuite::TLS_ECDHE_RSA_WITH_AES_128_CBC_SHA => "ECDHE-RSA-AES128-SHA",
            TLSCipherSuite::TLS_ECDHE_RSA_WITH_AES_256_CBC_SHA => "ECDHE-RSA-AES256-SHA",
            TLSCipherSuite::TLS_ECDH_anon_WITH_NULL_SHA => "AECDH-NULL-SHA",
            TLSCipherSuite::TLS_ECDH_anon_WITH_RC4_128_SHA => "AECDH-RC4-SHA",
            TLSCipherSuite::TLS_ECDH_anon_WITH_3DES_EDE_CBC_SHA => "AECDH-DES-CBC3-SHA",
            TLSCipherSuite::TLS_ECDH_anon_WITH_AES_128_CBC_SHA => "AECDH-AES128-SHA",
            TLSCipherSuite::TLS_ECDH_anon_WITH_AES_256_CBC_SHA => "AECDH-AES256-SHA",
            TLSCipherSuite::TLS_SRP_SHA_WITH_3DES_EDE_CBC_SHA => "SRP-3DES-EDE-CBC-SHA",
            TLSCipherSuite::TLS_SRP_SHA_RSA_WITH_3DES_EDE_CBC_SHA => "SRP-RSA-3DES-EDE-CBC-SHA",
            TLSCipherSuite::TLS_SRP_SHA_DSS_WITH_3DES_EDE_CBC_SHA => "SRP-DSS-3DES-EDE-CBC-SHA",
            TLSCipherSuite::TLS_SRP_SHA_WITH_AES_128_CBC_SHA => "SRP-AES-128-CBC-SHA",
            TLSCipherSuite::TLS_SRP_SHA_RSA_WITH_AES_128_CBC_SHA => "SRP-RSA-AES-128-CBC-SHA",
            TLSCipherSuite::TLS_SRP_SHA_DSS_WITH_AES_128_CBC_SHA => "SRP-DSS-AES-128-CBC-SHA",
            TLSCipherSuite::TLS_SRP_SHA_WITH_AES_256_CBC_SHA => "SRP-AES-256-CBC-SHA",
            TLSCipherSuite::TLS_SRP_SHA_RSA_WITH_AES_256_CBC_SHA => "SRP-RSA-AES-256-CBC-SHA",
            TLSCipherSuite::TLS_SRP_SHA_DSS_WITH_AES_256_CBC_SHA => "SRP-DSS-AES-256-CBC-SHA",
            TLSCipherSuite::TLS_ECDHE_ECDSA_WITH_AES_128_CBC_SHA256 => "ECDHE-ECDSA-AES128-SHA256",
            TLSCipherSuite::TLS_ECDHE_ECDSA_WITH_AES_256_CBC_SHA384 => "ECDHE-ECDSA-AES256-SHA384",
            TLSCipherSuite::TLS_ECDH_ECDSA_WITH_AES_128_CBC_SHA256 => "ECDH-ECDSA-AES128-SHA256",
            TLSCipherSuite::TLS_ECDH_ECDSA_WITH_AES_256_CBC_SHA384 => "ECDH-ECDSA-AES256-SHA384",
            TLSCipherSuite::TLS_ECDHE_RSA_WITH_AES_128_CBC_SHA256 => "ECDHE-RSA-AES128-SHA256",
            TLSCipherSuite::TLS_ECDHE_RSA_WITH_AES_256_CBC_SHA384 => "ECDHE-RSA-AES256-SHA384",
            TLSCipherSuite::TLS_ECDH_RSA_WITH_AES_128_CBC_SHA256 => "ECDH-RSA-AES128-SHA256",
            TLSCipherSuite::TLS_ECDH_RSA_WITH_AES_256_CBC_SHA384 => "ECDH-RSA-AES256-SHA384",
            TLSCipherSuite::TLS_ECDHE_ECDSA_WITH_AES_128_GCM_SHA256 => "ECDHE-ECDSA-AES128-GCM-SHA256",
            TLSCipherSuite::TLS_ECDHE_ECDSA_WITH_AES_256_GCM_SHA384 => "ECDHE-ECDSA-AES256-GCM-SHA384",
            TLSCipherSuite::TLS_ECDH_ECDSA_WITH_AES_128_GCM_SHA256 => "ECDH-ECDSA-AES128-GCM-SHA256",
            TLSCipherSuite::TLS_ECDH_ECDSA_WITH_AES_256_GCM_SHA384 => "ECDH-ECDSA-AES256-GCM-SHA384",
            TLSCipherSuite::TLS_ECDHE_RSA_WITH_AES_128_GCM_SHA256 => "ECDHE-RSA-AES128-GCM-SHA256",
            TLSCipherSuite::TLS_ECDHE_RSA_WITH_AES_256_GCM_SHA384 => "ECDHE-RSA-AES256-GCM-SHA384",
            TLSCipherSuite::TLS_ECDH_RSA_WITH_AES_128_GCM_SHA256 => "ECDH-RSA-AES128-GCM-SHA256",
            TLSCipherSuite::TLS_ECDH_RSA_WITH_AES_256_GCM_SHA384 => "ECDH-RSA-AES256-GCM-SHA384",
            TLSCipherSuite::TLS_ECDHE_PSK_WITH_RC4_128_SHA => "ECDHE-PSK-RC4-SHA",
            TLSCipherSuite::TLS_ECDHE_PSK_WITH_3DES_EDE_CBC_SHA => "ECDHE-PSK-3DES-EDE-CBC-SHA",
            TLSCipherSuite::TLS_ECDHE_PSK_WITH_AES_128_CBC_SHA => "ECDHE-PSK-AES128-CBC-SHA",
            TLSCipherSuite::TLS_ECDHE_PSK_WITH_AES_256_CBC_SHA => "ECDHE-PSK-AES256-CBC-SHA",
            TLSCipherSuite::TLS_ECDHE_PSK_WITH_AES_128_CBC_SHA256 => "ECDHE-PSK-AES128-CBC-SHA256",
            TLSCipherSuite::TLS_ECDHE_PSK_WITH_AES_256_CBC_SHA384 => "ECDHE-PSK-AES256-CBC-SHA384",
            TLSCipherSuite::TLS_ECDHE_PSK_WITH_NULL_SHA => "ECDHE-PSK-NULL-SHA",
            TLSCipherSuite::TLS_ECDHE_PSK_WITH_NULL_SHA256 => "ECDHE-PSK-NULL-SHA256",
            TLSCipherSuite::TLS_ECDHE_PSK_WITH_NULL_SHA384 => "ECDHE-PSK-NULL-SHA384",
            TLSCipherSuite::TLS_RSA_WITH_ARIA_128_GCM_SHA256 => "ARIA128-GCM-SHA256",
            TLSCipherSuite::TLS_RSA_WITH_ARIA_256_GCM_SHA384 => "ARIA256-GCM-SHA384",
            TLSCipherSuite::TLS_DHE_RSA_WITH_ARIA_128_GCM_SHA256 => "DHE-RSA-ARIA128-GCM-SHA256",
            TLSCipherSuite::TLS_DHE_RSA_WITH_ARIA_256_GCM_SHA384 => "DHE-RSA-ARIA256-GCM-SHA384",
            TLSCipherSuite::TLS_DHE_DSS_WITH_ARIA_128_GCM_SHA256 => "DHE-DSS-ARIA128-GCM-SHA256",
            TLSCipherSuite::TLS_DHE_DSS_WITH_ARIA_256_GCM_SHA384 => "DHE-DSS-ARIA256-GCM-SHA384",
            TLSCipherSuite::TLS_ECDHE_ECDSA_WITH_ARIA_128_GCM_SHA256 => "ECDHE-ECDSA-ARIA128-GCM-SHA256",
            TLSCipherSuite::TLS_ECDHE_ECDSA_WITH_ARIA_256_GCM_SHA384 => "ECDHE-ECDSA-ARIA256-GCM-SHA384",
            TLSCipherSuite::TLS_ECDHE_RSA_WITH_ARIA_128_GCM_SHA256 => "ECDHE-ARIA128-GCM-SHA256",
            TLSCipherSuite::TLS_ECDHE_RSA_WITH_ARIA_256_GCM_SHA384 => "ECDHE-ARIA256-GCM-SHA384",
            TLSCipherSuite::TLS_PSK_WITH_ARIA_128_GCM_SHA256 => "PSK-ARIA128-GCM-SHA256",
            TLSCipherSuite::TLS_PSK_WITH_ARIA_256_GCM_SHA384 => "PSK-ARIA256-GCM-SHA384",
            TLSCipherSuite::TLS_DHE_PSK_WITH_ARIA_128_GCM_SHA256 => "DHE-PSK-ARIA128-GCM-SHA256",
            TLSCipherSuite::TLS_DHE_PSK_WITH_ARIA_256_GCM_SHA384 => "DHE-PSK-ARIA256-GCM-SHA384",
            TLSCipherSuite::TLS_RSA_PSK_WITH_ARIA_128_GCM_SHA256 => "RSA-PSK-ARIA128-GCM-SHA256",
            TLSCipherSuite::TLS_RSA_PSK_WITH_ARIA_256_GCM_SHA384 => "RSA-PSK-ARIA256-GCM-SHA384",
            TLSCipherSuite::TLS_ECDHE_ECDSA_WITH_CAMELLIA_128_CBC_SHA256 => "ECDHE-ECDSA-CAMELLIA128-SHA256",
            TLSCipherSuite::TLS_ECDHE_ECDSA_WITH_CAMELLIA_256_CBC_SHA384 => "ECDHE-ECDSA-CAMELLIA256-SHA384",
            TLSCipherSuite::TLS_ECDH_ECDSA_WITH_CAMELLIA_128_CBC_SHA256 => "ECDH-ECDSA-CAMELLIA128-SHA256",
            TLSCipherSuite::TLS_ECDH_ECDSA_WITH_CAMELLIA_256_CBC_SHA384 => "ECDH-ECDSA-CAMELLIA256-SHA384",
            TLSCipherSuite::TLS_ECDHE_RSA_WITH_CAMELLIA_128_CBC_SHA256 => "ECDHE-RSA-CAMELLIA128-SHA256",
            TLSCipherSuite::TLS_ECDHE_RSA_WITH_CAMELLIA_256_CBC_SHA384 => "ECDHE-RSA-CAMELLIA256-SHA384",
            TLSCipherSuite::TLS_ECDH_RSA_WITH_CAMELLIA_128_CBC_SHA256 => "ECDH-RSA-CAMELLIA128-SHA256",
            TLSCipherSuite::TLS_ECDH_RSA_WITH_CAMELLIA_256_CBC_SHA384 => "ECDH-RSA-CAMELLIA256-SHA384",
            TLSCipherSuite::TLS_PSK_WITH_CAMELLIA_128_CBC_SHA256 => "PSK-CAMELLIA128-SHA256",
            TLSCipherSuite::TLS_PSK_WITH_CAMELLIA_256_CBC_SHA384 => "PSK-CAMELLIA256-SHA384",
            TLSCipherSuite::TLS_DHE_PSK_WITH_CAMELLIA_128_CBC_SHA256 => "DHE-PSK-CAMELLIA128-SHA256",
            TLSCipherSuite::TLS_DHE_PSK_WITH_CAMELLIA_256_CBC_SHA384 => "DHE-PSK-CAMELLIA256-SHA384",
            TLSCipherSuite::TLS_RSA_PSK_WITH_CAMELLIA_128_CBC_SHA256 => "RSA-PSK-CAMELLIA128-SHA256",
            TLSCipherSuite::TLS_RSA_PSK_WITH_CAMELLIA_256_CBC_SHA384 => "RSA-PSK-CAMELLIA256-SHA384",
            TLSCipherSuite::TLS_ECDHE_PSK_WITH_CAMELLIA_128_CBC_SHA256 => "ECDHE-PSK-CAMELLIA128-SHA256",
            TLSCipherSuite::TLS_ECDHE_PSK_WITH_CAMELLIA_256_CBC_SHA384 => "ECDHE-PSK-CAMELLIA256-SHA384",
            TLSCipherSuite::TLS_RSA_WITH_AES_128_CCM => "AES128-CCM",
            TLSCipherSuite::TLS_RSA_WITH_AES_256_CCM => "AES256-CCM",
            TLSCipherSuite::TLS_DHE_RSA_WITH_AES_128_CCM => "DHE-RSA-AES128-CCM",
            TLSCipherSuite::TLS_DHE_RSA_WITH_AES_256_CCM => "DHE-RSA-AES256-CCM",
            TLSCipherSuite::TLS_RSA_WITH_AES_128_CCM_8 => "AES128-CCM8",
            TLSCipherSuite::TLS_RSA_WITH_AES_256_CCM_8 => "AES256-CCM8",
            TLSCipherSuite::TLS_DHE_RSA_WITH_AES_128_CCM_8 => "DHE-RSA-AES128-CCM8",
            TLSCipherSuite::TLS_DHE_RSA_WITH_AES_256_CCM_8 => "DHE-RSA-AES256-CCM8",
            TLSCipherSuite::TLS_PSK_WITH_AES_128_CCM => "PSK-AES128-CCM",
            TLSCipherSuite::TLS_PSK_WITH_AES_256_CCM => "PSK-AES256-CCM",
            TLSCipherSuite::TLS_DHE_PSK_WITH_AES_128_CCM => "DHE-PSK-AES128-CCM",
            TLSCipherSuite::TLS_DHE_PSK_WITH_AES_256_CCM => "DHE-PSK-AES256-CCM",
            TLSCipherSuite::TLS_PSK_WITH_AES_128_CCM_8 => "PSK-AES128-CCM8",
            TLSCipherSuite::TLS_PSK_WITH_AES_256_CCM_8 => "PSK-AES256-CCM8",
            TLSCipherSuite::TLS_PSK_DHE_WITH_AES_128_CCM_8 => "DHE-PSK-AES128-CCM8",
            TLSCipherSuite::TLS_PSK_DHE_WITH_AES_256_CCM_8 => "DHE-PSK-AES256-CCM8",
            TLSCipherSuite::TLS_ECDHE_ECDSA_WITH_AES_128_CCM => "ECDHE-ECDSA-AES128-CCM",
            TLSCipherSuite::TLS_ECDHE_ECDSA_WITH_AES_256_CCM => "ECDHE-ECDSA-AES256-CCM",
            TLSCipherSuite::TLS_ECDHE_ECDSA_WITH_AES_128_CCM_8 => "ECDHE-ECDSA-AES128-CCM8",
            TLSCipherSuite::TLS_ECDHE_ECDSA_WITH_AES_256_CCM_8 => "ECDHE-ECDSA-AES256-CCM8",
            TLSCipherSuite::OLD_TLS_ECDHE_RSA_WITH_CHACHA20_POLY1305_SHA256 => "ECDHE-RSA-CHACHA20-POLY1305-OLD",
            TLSCipherSuite::OLD_TLS_ECDHE_ECDSA_WITH_CHACHA20_POLY1305_SHA256 => "ECDHE-ECDSA-CHACHA20-POLY1305-OLD",
            TLSCipherSuite::OLD_TLS_DHE_RSA_WITH_CHACHA20_POLY1305_SHA256 => "DHE-RSA-CHACHA20-POLY1305-OLD",
            TLSCipherSuite::TLS_ECDHE_RSA_WITH_CHACHA20_POLY1305_SHA256 => "ECDHE-RSA-CHACHA20-POLY1305",
            TLSCipherSuite::TLS_ECDHE_ECDSA_WITH_CHACHA20_POLY1305_SHA256 => "ECDHE-ECDSA-CHACHA20-POLY1305",
            TLSCipherSuite::TLS_DHE_RSA_WITH_CHACHA20_POLY1305_SHA256 => "DHE-RSA-CHACHA20-POLY1305",
            TLSCipherSuite::TLS_PSK_WITH_CHACHA20_POLY1305_SHA256 => "PSK-CHACHA20-POLY1305",
            TLSCipherSuite::TLS_ECDHE_PSK_WITH_CHACHA20_POLY1305_SHA256 => "ECDHE-PSK-CHACHA20-POLY1305",
            TLSCipherSuite::TLS_DHE_PSK_WITH_CHACHA20_POLY1305_SHA256 => "DHE-PSK-CHACHA20-POLY1305",
            TLSCipherSuite::TLS_RSA_PSK_WITH_CHACHA20_POLY1305_SHA256 => "RSA-PSK-CHACHA20-POLY1305",
        }
    }

    /// The RFC identifier of the suite.
    pub fn as_rfc_name(&self) -> (r: &'static str)
        ensures
            r@ == self.spec_rfc_name(),
    {
        match self {
            TLSCipherSuite::TLS_RSA_WITH_NULL_MD5 => "TLS_RSA_WITH_NULL_MD5",
            TLSCipherSuite::TLS_RSA_WITH_NULL_SHA => "TLS_RSA_WITH_NULL_SHA",
            TLSCipherSuite::TLS_RSA_EXPORT_WITH_RC4_40_MD5 => "TLS_RSA_EXPORT_WITH_RC4_40_MD5",
            TLSCipherSuite::TLS_RSA_WITH_RC4_128_MD5 => "TLS_RSA_WITH_RC4_128_MD5",
            TLSCipherSuite::TLS_RSA_WITH_RC4_128_SHA => "TLS_RSA_WITH_RC4_128_SHA",
            TLSCipherSuite::TLS_RSA_EXPORT_WITH_RC2_CBC_40_MD5 => "TLS_RSA_EXPORT_WITH_RC2_CBC_40_MD5",
            TLSCipherSuite::TLS_RSA_WITH_IDEA_CBC_SHA => "TLS_RSA_WITH_IDEA_CBC_SHA",
            TLSCipherSuite::TLS_RSA_EXPORT_WITH_DES40_CBC_SHA => "TLS_RSA_EXPORT_WITH_DES40_CBC_SHA",
            TLSCipherSuite::TLS_RSA_WITH_DES_CBC_SHA => "TLS_RSA_WITH_DES_CBC_SHA",
            TLSCipherSuite::TLS_RSA_WITH_3DES_EDE_CBC_SHA => "TLS_RSA_WITH_3DES_EDE_CBC_SHA",
            TLSCipherSuite::TLS_DH_DSS_EXPORT_WITH_DES40_CBC_SHA => "TLS_DH_DSS_EXPORT_WITH_DES40_CBC_SHA",
            TLSCipherSuite::TLS_DH_DSS_WITH_DES_CBC_SHA => "TLS_DH_DSS_WITH_DES_CBC_SHA",
            TLSCipherSuite::TLS_DH_DSS_WITH_3DES_EDE_CBC_SHA => "TLS_DH_DSS_WITH_3DES_EDE_CBC_SHA",
            TLSCipherSuite::TLS_DH_RSA_EXPORT_WITH_DES40_CBC_SHA => "TLS_DH_RSA_EXPORT_WITH_DES40_CBC_SHA",
            TLSCipherSuite::TLS_DH_RSA_WITH_DES_CBC_SHA => "TLS_DH_RSA_WITH_DES_CBC_SHA",
            TLSCipherSuite::TLS_DH_RSA_WITH_3DES_EDE_CBC_SHA => "TLS_DH_RSA_WITH_3DES_EDE_CBC_SHA",
            TLSCipherSuite::TLS_DHE_DSS_EXPORT_WITH_DES40_CBC_SHA => "TLS_DHE_DSS_EXPORT_WITH_DES40_CBC_SHA",
            TLSCipherSuite::TLS_DHE_DSS_WITH_DES_CBC_SHA => "TLS_DHE_DSS_WITH_DES_CBC_SHA",
            TLSCipherSuite::TLS_DHE_DSS_WITH_3DES_EDE_CBC_SHA => "TLS_DHE_DSS_WITH_3DES_EDE_CBC_SHA",
            TLSCipherSuite::TLS_DHE_RSA_EXPORT_WITH_DES40_CBC_SHA => "TLS_DHE_RSA_EXPORT_WITH_DES40_CBC_SHA",
            TLSCipherSuite::TLS_DHE_RSA_WITH_DES_CBC_SHA => "TLS_DHE_RSA_WITH_DES_CBC_SHA",
            TLSCipherSuite::TLS_DHE_RSA_WITH_3DES_EDE_CBC_SHA => "TLS_DHE_RSA_WITH_3DES_EDE_CBC_SHA",
            TLSCipherSuite::TLS_DH_anon_EXPORT_WITH_RC4_40_MD5 => "TLS_DH_anon_EXPORT_WITH_RC4_40_MD5",
            TLSCipherSuite::TLS_DH_anon_WITH_RC4_128_MD5 => "TLS_DH_anon_WITH_RC4_128_MD5",
            TLSCipherSuite::TLS_DH_anon_EXPORT_WITH_DES40_CBC_SHA => "TLS_DH_anon_EXPORT_WITH_DES40_CBC_SHA",
            TLSCipherSuite::TLS_DH_anon_WITH_DES_CBC_SHA => "TLS_DH_anon_WITH_DES_CBC_SHA",
            TLSCipherSuite::TLS_DH_anon_WITH_3DES_EDE_CBC_SHA => "TLS_DH_anon_WITH_3DES_EDE_CBC_SHA",
            TLSCipherSuite::TLS_KRB5_WITH_DES_CBC_SHA => "TLS_KRB5_WITH_DES_CBC_SHA",
            TLSCipherSuite::TLS_KRB5_WITH_3DES_EDE_CBC_SHA => "TLS_KRB5_WITH_3DES_EDE_CBC_SHA",
            TLSCipherSuite::TLS_KRB5_WITH_RC4_128_SHA => "TLS_KRB5_WITH_RC4_128_SHA",
            TLSCipherSuite::TLS_KRB5_WITH_IDEA_CBC_SHA => "TLS_KRB5_WITH_IDEA_CBC_SHA",
            TLSCipherSuite::TLS_KRB5_WITH_DES_CBC_MD5 => "TLS_KRB5_WITH_DES_CBC_MD5",
            TLSCipherSuite::TLS_KRB5_WITH_3DES_EDE_CBC_MD5 => "TLS_KRB5_WITH_3DES_EDE_CBC_MD5",
            TLSCipherSuite::TLS_KRB5_WITH_RC4_128_MD5 => "TLS_KRB5_WITH_RC4_128_MD5",
            TLSCipherSuite::TLS_KRB5_WITH_IDEA_CBC_MD5 => "TLS_KRB5_WITH_IDEA_CBC_MD5",
            TLSCipherSuite::TLS_KRB5_EXPORT_WITH_DES_CBC_40_SHA => "TLS_KRB5_EXPORT_WITH_DES_CBC_40_SHA",
            TLSCipherSuite::TLS_KRB5_EXPORT_WITH_RC2_CBC_40_SHA => "TLS_KRB5_EXPORT_WITH_RC2_CBC_40_SHA",
            TLSCipherSuite::TLS_KRB5_EXPORT_WITH_RC4_40_SHA => "TLS_KRB5_EXPORT_WITH_RC4_40_SHA",
            TLSCipherSuite::TLS_KRB5_EXPORT_WITH_DES_CBC_40_MD5 => "TLS_KRB5_EXPORT_WITH_DES_CBC_40_MD5",
            TLSCipherSuite::TLS_KRB5_EXPORT_WITH_RC2_CBC_40_MD5 => "TLS_KRB5_EXPORT_WITH_RC2_CBC_40_MD5",
            TLSCipherSuite::TLS_KRB5_EXPORT_WITH_RC4_40_MD5 => "TLS_KRB5_EXPORT_WITH_RC4_40_MD5",
            TLSCipherSuite::TLS_PSK_WITH_NULL_SHA => "TLS_PSK_WITH_NULL_SHA",
            TLSCipherSuite::TLS_DHE_PSK_WITH_NULL_SHA => "TLS_DHE_PSK_WITH_NULL_SHA",
            TLSCipherSuite::TLS_RSA_PSK_WITH_NULL_SHA => "TLS_RSA_PSK_WITH_NULL_SHA",
            TLSCipherSuite::TLS_RSA_WITH_AES_128_CBC_SHA => "TLS_RSA_WITH_AES_128_CBC_SHA",
            TLSCipherSuite::TLS_DH_DSS_WITH_AES_128_CBC_SHA => "TLS_DH_DSS_WITH_AES_128_CBC_SHA",
            TLSCipherSuite::TLS_DH_RSA_WITH_AES_128_CBC_SHA => "TLS_DH_RSA_WITH_AES_128_CBC_SHA",
            TLSCipherSuite::TLS_DHE_DSS_WITH_AES_128_CBC_SHA => "TLS_DHE_DSS_WITH_AES_128_CBC_SHA",
            TLSCipherSuite::TLS_DHE_RSA_WITH_AES_128_CBC_SHA => "TLS_DHE_RSA_WITH_AES_128_CBC_SHA",
            TLSCipherSuite::TLS_DH_anon_WITH_AES_128_CBC_SHA => "TLS_DH_anon_WITH_AES_128_CBC_SHA",
            TLSCipherSuite::TLS_RSA_WITH_AES_256_CBC_SHA => "TLS_RSA_WITH_AES_256_CBC_SHA",
            TLSCipherSuite::TLS_DH_DSS_WITH_AES_256_CBC_SHA => "TLS_DH_DSS_WITH_AES_256_CBC_SHA",
            TLSCipherSuite::TLS_DH_RSA_WITH_AES_256_CBC_SHA => "TLS_DH_RSA_WITH_AES_256_CBC_SHA",
            TLSCipherSuite::TLS_DHE_DSS_WITH_AES_256_CBC_SHA => "TLS_DHE_DSS_WITH_AES_256_CBC_SHA",
            TLSCipherSuite::TLS_DHE_RSA_WITH_AES_256_CBC_SHA => "TLS_DHE_RSA_WITH_AES_256_CBC_SHA",
            TLSCipherSuite::TLS_DH_anon_WITH_AES_256_CBC_SHA => "TLS_DH_anon_WITH_AES_256_CBC_SHA",
            TLSCipherSuite::TLS_RSA_WITH_NULL_SHA256 => "TLS_RSA_WITH_NULL_SHA256",
            TLSCipherSuite::TLS_RSA_WITH_AES_128_CBC_SHA256 => "TLS_RSA_WITH_AES_128_CBC_SHA256",
            TLSCipherSuite::TLS_RSA_WITH_AES_256_CBC_SHA256 => "TLS_RSA_WITH_AES_256_CBC_SHA256",
            TLSCipherSuite::TLS_DH_DSS_WITH_AES_128_CBC_SHA256 => "TLS_DH_DSS_WITH_AES_128_CBC_SHA256",
            TLSCipherSuite::TLS_DH_RSA_WITH_AES_128_CBC_SHA256 => "TLS_DH_RSA_WITH_AES_128_CBC_SHA256",
            TLSCipherSuite::TLS_DHE_DSS_WITH_AES_128_CBC_SHA256 => "TLS_DHE_DSS_WITH_AES_128_CBC_SHA256",
            TLSCipherSuite::TLS_RSA_WITH_CAMELLIA_128_CBC_SHA => "TLS_RSA_WITH_CAMELLIA_128_CBC_SHA",
            TLSCipherSuite::TLS_DH_DSS_WITH_CAMELLIA_128_CBC_SHA => "TLS_DH_DSS_WITH_CAMELLIA_128_CBC_SHA",
            TLSCipherSuite::TLS_DH_RSA_WITH_CAMELLIA_128_CBC_SHA => "TLS_DH_RSA_WITH_CAMELLIA_128_CBC_SHA",
            TLSCipherSuite::TLS_DHE_DSS_WITH_CAMELLIA_128_CBC_SHA => "TLS_DHE_DSS_WITH_CAMELLIA_128_CBC_SHA",
            TLSCipherSuite::TLS_DHE_RSA_WITH_CAMELLIA_128_CBC_SHA => "TLS_DHE_RSA_WITH_CAMELLIA_128_CBC_SHA",
            TLSCipherSuite::TLS_DH_anon_WITH_CAMELLIA_128_CBC_SHA => "TLS_DH_anon_WITH_CAMELLIA_128_CBC_SHA",
            TLSCipherSuite::TLS_RSA_EXPORT1024_WITH_RC4_56_MD5 => "TLS_RSA_EXPORT1024_WITH_RC4_56_MD5",
            TLSCipherSuite::TLS_RSA_EXPORT1024_WITH_RC2_CBC_56_MD5 => "TLS_RSA_EXPORT1024_WITH_RC2_CBC_56_MD5",
            TLSCipherSuite::TLS_RSA_EXPORT1024_WITH_DES_CBC_SHA => "TLS_RSA_EXPORT1024_WITH_DES_CBC_SHA",
            TLSCipherSuite::TLS_DHE_DSS_EXPORT1024_WITH_DES_CBC_SHA => "TLS_DHE_DSS_EXPORT1024_WITH_DES_CBC_SHA",
            TLSCipherSuite::TLS_RSA_EXPORT1024_WITH_RC4_56_SHA => "TLS_RSA_EXPORT1024_WITH_RC4_56_SHA",
            TLSCipherSuite::TLS_DHE_DSS_EXPORT1024_WITH_RC4_56_SHA => "TLS_DHE_DSS_EXPORT1024_WITH_RC4_56_SHA",
            TLSCipherSuite::TLS_DHE_DSS_WITH_RC4_128_SHA => "TLS_DHE_DSS_WITH_RC4_128_SHA",
            TLSCipherSuite::TLS_DHE_RSA_WITH_AES_128_CBC_SHA256 => "TLS_DHE_RSA_WITH_AES_128_CBC_SHA256",
            TLSCipherSuite::TLS_DH_DSS_WITH_AES_256_CBC_SHA256 => "TLS_DH_DSS_WITH_AES_256_CBC_SHA256",
            TLSCipherSuite::TLS_DH_RSA_WITH_AES_256_CBC_SHA256 => "TLS_DH_RSA_WITH_AES_256_CBC_SHA256",
            TLSCipherSuite::TLS_DHE_DSS_WITH_AES_256_CBC_SHA256 => "TLS_DHE_DSS_WITH_AES_256_CBC_SHA256",
            TLSCipherSuite::TLS_DHE_RSA_WITH_AES_256_CBC_SHA256 => "TLS_DHE_RSA_WITH_AES_256_CBC_SHA256",
            TLSCipherSuite::TLS_DH_anon_WITH_AES_128_CBC_SHA256 => "TLS_DH_anon_WITH_AES_128_CBC_SHA256",
            TLSCipherSuite::TLS_DH_anon_WITH_AES_256_CBC_SHA256 => "TLS_DH_anon_WITH_AES_256_CBC_SHA256",
            TLSCipherSuite::TLS_GOSTR341094_WITH_28147_CNT_IMIT => "TLS_GOSTR341094_WITH_28147_CNT_IMIT",
            TLSCipherSuite::TLS_GOSTR341001_WITH_28147_CNT_IMIT => "TLS_GOSTR341001_WITH_28147_CNT_IMIT",
            TLSCipherSuite::TLS_GOSTR341094_WITH_NULL_GOSTR3411 => "TLS_GOSTR341094_WITH_NULL_GOSTR3411",
            TLSCipherSuite::TLS_GOSTR341001_WITH_NULL_GOSTR3411 => "TLS_GOSTR341001_WITH_NULL_GOSTR3411",
            TLSCipherSuite::TLS_RSA_WITH_CAMELLIA_256_CBC_SHA => "TLS_RSA_WITH_CAMELLIA_256_CBC_SHA",
            TLSCipherSuite::TLS_DH_DSS_WITH_CAMELLIA_256_CBC_SHA => "TLS_DH_DSS_WITH_CAMELLIA_256_CBC_SHA",
            TLSCipherSuite::TLS_DH_RSA_WITH_CAMELLIA_256_CBC_SHA => "TLS_DH_RSA_WITH_CAMELLIA_256_CBC_SHA",
            TLSCipherSuite::TLS_DHE_DSS_WITH_CAMELLIA_256_CBC_SHA => "TLS_DHE_DSS_WITH_CAMELLIA_256_CBC_SHA",
            TLSCipherSuite::TLS_DHE_RSA_WITH_CAMELLIA_256_CBC_SHA => "TLS_DHE_RSA_WITH_CAMELLIA_256_CBC_SHA",
            TLSCipherSuite::TLS_DH_anon_WITH_CAMELLIA_256_CBC_SHA => "TLS_DH_anon_WITH_CAMELLIA_256_CBC_SHA",
            TLSCipherSuite::TLS_PSK_WITH_RC4_128_SHA => "TLS_PSK_WITH_RC4_128_SHA",
            TLSCipherSuite::TLS_PSK_WITH_3DES_EDE_CBC_SHA => "TLS_PSK_WITH_3DES_EDE_CBC_SHA",
            TLSCipherSuite::TLS_PSK_WITH_AES_128_CBC_SHA => "TLS_PSK_WITH_AES_128_CBC_SHA",
            TLSCipherSuite::TLS_PSK_WITH_AES_256_CBC_SHA => "TLS_PSK_WITH_AES_256_CBC_SHA",
            TLSCipherSuite::TLS_DHE_PSK_WITH_RC4_128_SHA => "TLS_DHE_PSK_WITH_RC4_128_SHA",
            TLSCipherSuite::TLS_DHE_PSK_WITH_3DES_EDE_CBC_SHA => "TLS_DHE_PSK_WITH_3DES_EDE_CBC_SHA",
            TLSCipherSuite::TLS_DHE_PSK_WITH_AES_128_CBC_SHA => "TLS_DHE_PSK_WITH_AES_128_CBC_SHA",
            TLSCipherSuite::TLS_DHE_PSK_WITH_AES_256_CBC_SHA => "TLS_DHE_PSK_WITH_AES_256_CBC_SHA",
            TLSCipherSuite::TLS_RSA_PSK_WITH_RC4_128_SHA => "TLS_RSA_PSK_WITH_RC4_128_SHA",
            TLSCipherSuite::TLS_RSA_PSK_WITH_3DES_EDE_CBC_SHA => "TLS_RSA_PSK_WITH_3DES_EDE_CBC_SHA",
            TLSCipherSuite::TLS_RSA_PSK_WITH_AES_128_CBC_SHA => "TLS_RSA_PSK_WITH_AES_128_CBC_SHA",
            TLSCipherSuite::TLS_RSA_PSK_WITH_AES_256_CBC_SHA => "TLS_RSA_PSK_WITH_AES_256_CBC_SHA",
            TLSCipherSuite::TLS_RSA_WITH_SEED_CBC_SHA => "TLS_RSA_WITH_SEED_CBC_SHA",
            TLSCipherSuite::TLS_DH_DSS_WITH_SEED_CBC_SHA => "TLS_DH_DSS_WITH_SEED_CBC_SHA",
            TLSCipherSuite::TLS_DH_RSA_WITH_SEED_CBC_SHA => "TLS_DH_RSA_WITH_SEED_CBC_SHA",
            TLSCipherSuite::TLS_DHE_DSS_WITH_SEED_CBC_SHA => "TLS_DHE_DSS_WITH_SEED_CBC_SHA",
            TLSCipherSuite::TLS_DHE_RSA_WITH_SEED_CBC_SHA => "TLS_DHE_RSA_WITH_SEED_CBC_SHA",
            TLSCipherSuite::TLS_DH_anon_WITH_SEED_CBC_SHA => "TLS_DH_anon_WITH_SEED_CBC_SHA",
            TLSCipherSuite::TLS_RSA_WITH_AES_128_GCM_SHA256 => "TLS_RSA_WITH_AES_128_GCM_SHA256",
            TLSCipherSuite::TLS_RSA_WITH_AES_256_GCM_SHA384 => "TLS_RSA_WITH_AES_256_GCM_SHA384",
            TLSCipherSuite::TLS_DHE_RSA_WITH_AES_128_GCM_SHA256 => "TLS_DHE_RSA_WITH_AES_128_GCM_SHA256",
            TLSCipherSuite::TLS_DHE_RSA_WITH_AES_256_GCM_SHA384 => "TLS_DHE_RSA_WITH_AES_256_GCM_SHA384",
            TLSCipherSuite::TLS_DH_RSA_WITH_AES_128_GCM_SHA256 => "TLS_DH_RSA_WITH_AES_128_GCM_SHA256",
            TLSCipherSuite::TLS_DH_RSA_WITH_AES_256_GCM_SHA384 => "TLS_DH_RSA_WITH_AES_256_GCM_SHA384",
            TLSCipherSuite::TLS_DHE_DSS_WITH_AES_128_GCM_SHA256 => "TLS_DHE_DSS_WITH_AES_128_GCM_SHA256",
            TLSCipherSuite::TLS_DHE_DSS_WITH_AES_256_GCM_SHA384 => "TLS_DHE_DSS_WITH_AES_256_GCM_SHA384",
            TLSCipherSuite::TLS_DH_DSS_WITH_AES_128_GCM_SHA256 => "TLS_DH_DSS_WITH_AES_128_GCM_SHA256",
            TLSCipherSuite::TLS_DH_DSS_WITH_AES_256_GCM_SHA384 => "TLS_DH_DSS_WITH_AES_256_GCM_SHA384",
            TLSCipherSuite::TLS_DH_anon_WITH_AES_128_GCM_SHA256 => "TLS_DH_anon_WITH_AES_128_GCM_SHA256",
            TLSCipherSuite::TLS_DH_anon_WITH_AES_256_GCM_SHA384 => "TLS_DH_anon_WITH_AES_256_GCM_SHA384",
            TLSCipherSuite::TLS_PSK_WITH_AES_128_GCM_SHA256 => "TLS_PSK_WITH_AES_128_GCM_SHA256",
            TLSCipherSuite::TLS_PSK_WITH_AES_256_GCM_SHA384 => "TLS_PSK_WITH_AES_256_GCM_SHA384",
            TLSCipherSuite::TLS_DHE_PSK_WITH_AES_128_GCM_SHA256 => "TLS_DHE_PSK_WITH_AES_128_GCM_SHA256",
            TLSCipherSuite::TLS_DHE_PSK_WITH_AES_256_GCM_SHA384 => "TLS_DHE_PSK_WITH_AES_256_GCM_SHA384",
            TLSCipherSuite::TLS_RSA_PSK_WITH_AES_128_GCM_SHA256 => "TLS_RSA_PSK_WITH_AES_128_GCM_SHA256",
            TLSCipherSuite::TLS_RSA_PSK_WITH_AES_256_GCM_SHA384 => "TLS_RSA_PSK_WITH_AES_256_GCM_SHA384",
            TLSCipherSuite::TLS_PSK_WITH_AES_128_CBC_SHA256 => "TLS_PSK_WITH_AES_128_CBC_SHA256",
            TLSCipherSuite::TLS_PSK_WITH_AES_256_CBC_SHA384 => "TLS_PSK_WITH_AES_256_CBC_SHA384",
            TLSCipherSuite::TLS_PSK_WITH_NULL_SHA256 => "TLS_PSK_WITH_NULL_SHA256",
            TLSCipherSuite::TLS_PSK_WITH_NULL_SHA384 => "TLS_PSK_WITH_NULL_SHA384",
            TLSCipherSuite::TLS_DHE_PSK_WITH_AES_128_CBC_SHA256 => "TLS_DHE_PSK_WITH_AES_128_CBC_SHA256",
            TLSCipherSuite::TLS_DHE_PSK_WITH_AES_256_CBC_SHA384 => "TLS_DHE_PSK_WITH_AES_256_CBC_SHA384",
            TLSCipherSuite::TLS_DHE_PSK_WITH_NULL_SHA256 => "TLS_DHE_PSK_WITH_NULL_SHA256",
            TLSCipherSuite::TLS_DHE_PSK_WITH_NULL_SHA384 => "TLS_DHE_PSK_WITH_NULL_SHA384",
            TLSCipherSuite::TLS_RSA_PSK_WITH_AES_128_CBC_SHA256 => "TLS_RSA_PSK_WITH_AES_128_CBC_SHA256",
            TLSCipherSuite::TLS_RSA_PSK_WITH_AES_256_CBC_SHA384 => "TLS_RSA_PSK_WITH_AES_256_CBC_SHA384",
            TLSCipherSuite::TLS_RSA_PSK_WITH_NULL_SHA256 => "TLS_RSA_PSK_WITH_NULL_SHA256",
            TLSCipherSuite::TLS_RSA_PSK_WITH_NULL_SHA384 => "TLS_RSA_PSK_WITH_NULL_SHA384",
            TLSCipherSuite::TLS_RSA_WITH_CAMELLIA_128_CBC_SHA256 => "TLS_RSA_WITH_CAMELLIA_128_CBC_SHA256",
            TLSCipherSuite::TLS_DH_DSS_WITH_CAMELLIA_128_CBC_SHA256 => "TLS_DH_DSS_WITH_CAMELLIA_128_CBC_SHA256",
            TLSCipherSuite::TLS_DH_RSA_WITH_CAMELLIA_128_CBC_SHA256 => "TLS_DH_RSA_WITH_CAMELLIA_128_CBC_SHA256",
            TLSCipherSuite::TLS_DHE_DSS_WITH_CAMELLIA_128_CBC_SHA256 => "TLS_DHE_DSS_WITH_CAMELLIA_128_CBC_SHA256",
            TLSCipherSuite::TLS_DHE_RSA_WITH_CAMELLIA_128_CBC_SHA256 => "TLS_DHE_RSA_WITH_CAMELLIA_128_CBC_SHA256",
            TLSCipherSuite::TLS_DH_anon_WITH_CAMELLIA_128_CBC_SHA256 => "TLS_DH_anon_WITH_CAMELLIA_128_CBC_SHA256",
            TLSCipherSuite::TLS_RSA_WITH_CAMELLIA_256_CBC_SHA256 => "TLS_RSA_WITH_CAMELLIA_256_CBC_SHA256",
            TLSCipherSuite::TLS_DH_DSS_WITH_CAMELLIA_256_CBC_SHA256 => "TLS_DH_DSS_WITH_CAMELLIA_256_CBC_SHA256",
            TLSCipherSuite::TLS_DH_RSA_WITH_CAMELLIA_256_CBC_SHA256 => "TLS_DH_RSA_WITH_CAMELLIA_256_CBC_SHA256",
            TLSCipherSuite::TLS_DHE_DSS_WITH_CAMELLIA_256_CBC_SHA256 => "TLS_DHE_DSS_WITH_CAMELLIA_256_CBC_SHA256",
            TLSCipherSuite::TLS_DHE_RSA_WITH_CAMELLIA_256_CBC_SHA256 => "TLS_DHE_RSA_WITH_CAMELLIA_256_CBC_SHA256",
            TLSCipherSuite::TLS_DH_anon_WITH_CAMELLIA_256_CBC_SHA256 => "TLS_DH_anon_WITH_CAMELLIA_256_CBC_SHA256",
            TLSCipherSuite::TLS_AES_128_GCM_SHA256 => "TLS_AES_128_GCM_SHA256",
            TLSCipherSuite::TLS_AES_256_GCM_SHA384 => "TLS_AES_256_GCM_SHA384",
            TLSCipherSuite::TLS_CHACHA20_POLY1305_SHA256 => "TLS_CHACHA20_POLY1305_SHA256",
            TLSCipherSuite::TLS_AES_128_CCM_SHA256 => "TLS_AES_128_CCM_SHA256",
            TLSCipherSuite::TLS_AES_128_CCM_8_SHA256 => "TLS_AES_128_CCM_8_SHA256",
            TLSCipherSuite::TLS_ECDH_ECDSA_WITH_NULL_SHA => "TLS_ECDH_ECDSA_WITH_NULL_SHA",
            TLSCipherSuite::TLS_ECDH_ECDSA_WITH_RC4_128_SHA => "TLS_ECDH_ECDSA_WITH_RC4_128_SHA",
            TLSCipherSuite::TLS_ECDH_ECDSA_WITH_3DES_EDE_CBC_SHA => "TLS_ECDH_ECDSA_WITH_3DES_EDE_CBC_SHA",
            TLSCipherSuite::TLS_ECDH_ECDSA_WITH_AES_128_CBC_SHA => "TLS_ECDH_ECDSA_WITH_AES_128_CBC_SHA",
            TLSCipherSuite::TLS_ECDH_ECDSA_WITH_AES_256_CBC_SHA => "TLS_ECDH_ECDSA_WITH_AES_256_CBC_SHA",
            TLSCipherSuite::TLS_ECDHE_ECDSA_WITH_NULL_SHA => "TLS_ECDHE_ECDSA_WITH_NULL_SHA",
            TLSCipherSuite::TLS_ECDHE_ECDSA_WITH_RC4_128_SHA => "TLS_ECDHE_ECDSA_WITH_RC4_128_SHA",
            TLSCipherSuite::TLS_ECDHE_ECDSA_WITH_3DES_EDE_CBC_SHA => "TLS_ECDHE_ECDSA_WITH_3DES_EDE_CBC_SHA",
            TLSCipherSuite::TLS_ECDHE_ECDSA_WITH_AES_128_CBC_SHA => "TLS_ECDHE_ECDSA_WITH_AES_128_CBC_SHA",
            TLSCipherSuite::TLS_ECDHE_ECDSA_WITH_AES_256_CBC_SHA => "TLS_ECDHE_ECDSA_WITH_AES_256_CBC_SHA",
            TLSCipherSuite::TLS_ECDH_RSA_WITH_NULL_SHA => "TLS_ECDH_RSA_WITH_NULL_SHA",
            TLSCipherSuite::TLS_ECDH_RSA_WITH_RC4_128_SHA => "TLS_ECDH_RSA_WITH_RC4_128_SHA",
            TLSCipherSuite::TLS_ECDH_RSA_WITH_3DES_EDE_CBC_SHA => "TLS_ECDH_RSA_WITH_3DES_EDE_CBC_SHA",
            TLSCipherSuite::TLS_ECDH_RSA_WITH_AES_128_CBC_SHA => "TLS_ECDH_RSA_WITH_AES_128_CBC_SHA",
            TLSCipherSuite::TLS_ECDH_RSA_WITH_AES_256_CBC_SHA => "TLS_ECDH_RSA_WITH_AES_256_CBC_SHA",
            TLSCipherSuite::TLS_ECDHE_RSA_WITH_NULL_SHA => "TLS_ECDHE_RSA_WITH_NULL_SHA",
            TLSCipherSuite::TLS_ECDHE_RSA_WITH_RC4_128_SHA => "TLS_ECDHE_RSA_WITH_RC4_128_SHA",
            TLSCipherSuite::TLS_ECDHE_RSA_WITH_3DES_EDE_CBC_SHA => "TLS_ECDHE_RSA_WITH_3DES_EDE_CBC_SHA",
            TLSCipherSuite::TLS_ECDHE_RSA_WITH_AES_128_CBC_SHA => "TLS_ECDHE_RSA_WITH_AES_128_CBC_SHA",
            TLSCipherSuite::TLS_ECDHE_RSA_WITH_AES_256_CBC_SHA => "TLS_ECDHE_RSA_WITH_AES_256_CBC_SHA",
            TLSCipherSuite::TLS_ECDH_anon_WITH_NULL_SHA => "TLS_ECDH_anon_WITH_NULL_SHA",
            TLSCipherSuite::TLS_ECDH_anon_WITH_RC4_128_SHA => "TLS_ECDH_anon_WITH_RC4_128_SHA",
            TLSCipherSuite::TLS_ECDH_anon_WITH_3DES_EDE_CBC_SHA => "TLS_ECDH_anon_WITH_3DES_EDE_CBC_SHA",
            TLSCipherSuite::TLS_ECDH_anon_WITH_AES_128_CBC_SHA => "TLS_ECDH_anon_WITH_AES_128_CBC_SHA",
            TLSCipherSuite::TLS_ECDH_anon_WITH_AES_256_CBC_SHA => "TLS_ECDH_anon_WITH_AES_256_CBC_SHA",
            TLSCipherSuite::TLS_SRP_SHA_WITH_3DES_EDE_CBC_SHA => "TLS_SRP_SHA_WITH_3DES_EDE_CBC_SHA",
            TLSCipherSuite::TLS_SRP_SHA_RSA_WITH_3DES_EDE_CBC_SHA => "TLS_SRP_SHA_RSA_WITH_3DES_EDE_CBC_SHA",
            TLSCipherSuite::TLS_SRP_SHA_DSS_WITH_3DES_EDE_CBC_SHA => "TLS_SRP_SHA_DSS_WITH_3DES_EDE_CBC_SHA",
            TLSCipherSuite::TLS_SRP_SHA_WITH_AES_128_CBC_SHA => "TLS_SRP_SHA_WITH_AES_128_CBC_SHA",
            TLSCipherSuite::TLS_SRP_SHA_RSA_WITH_AES_128_CBC_SHA => "TLS_SRP_SHA_RSA_WITH_AES_128_CBC_SHA",
            TLSCipherSuite::TLS_SRP_SHA_DSS_WITH_AES_128_CBC_SHA => "TLS_SRP_SHA_DSS_WITH_AES_128_CBC_SHA",
            TLSCipherSuite::TLS_SRP_SHA_WITH_AES_256_CBC_SHA => "TLS_SRP_SHA_WITH_AES_256_CBC_SHA",
            TLSCipherSuite::TLS_SRP_SHA_RSA_WITH_AES_256_CBC_SHA => "TLS_SRP_SHA_RSA_WITH_AES_256_CBC_SHA",
            TLSCipherSuite::TLS_SRP_SHA_DSS_WITH_AES_256_CBC_SHA => "TLS_SRP_SHA_DSS_WITH_AES_256_CBC_SHA",
            TLSCipherSuite::TLS_ECDHE_ECDSA_WITH_AES_128_CBC_SHA256 => "TLS_ECDHE_ECDSA_WITH_AES_128_CBC_SHA256",
            TLSCipherSuite::TLS_ECDHE_ECDSA_WITH_AES_256_CBC_SHA384 => "TLS_ECDHE_ECDSA_WITH_AES_256_CBC_SHA384",
            TLSCipherSuite::TLS_ECDH_ECDSA_WITH_AES_128_CBC_SHA256 => "TLS_ECDH_ECDSA_WITH_AES_128_CBC_SHA256",
            TLSCipherSuite::TLS_ECDH_ECDSA_WITH_AES_256_CBC_SHA384 => "TLS_ECDH_ECDSA_WITH_AES_256_CBC_SHA384",
            TLSCipherSuite::TLS_ECDHE_RSA_WITH_AES_128_CBC_SHA256 => "TLS_ECDHE_RSA_WITH_AES_128_CBC_SHA256",
            TLSCipherSuite::TLS_ECDHE_RSA_WITH_AES_256_CBC_SHA384 => "TLS_ECDHE_RSA_WITH_AES_256_CBC_SHA384",
            TLSCipherSuite::TLS_ECDH_RSA_WITH_AES_128_CBC_SHA256 => "TLS_ECDH_RSA_WITH_AES_128_CBC_SHA256",
            TLSCipherSuite::TLS_ECDH_RSA_WITH_AES_256_CBC_SHA384 => "TLS_ECDH_RSA_WITH_AES_256_CBC_SHA384",
            TLSCipherSuite::TLS_ECDHE_ECDSA_WITH_AES_128_GCM_SHA256 => "TLS_ECDHE_ECDSA_WITH_AES_128_GCM_SHA256",
            TLSCipherSuite::TLS_ECDHE_ECDSA_WITH_AES_256_GCM_SHA384 => "TLS_ECDHE_ECDSA_WITH_AES_256_GCM_SHA384",
            TLSCipherSuite::TLS_ECDH_ECDSA_WITH_AES_128_GCM_SHA256 => "TLS_ECDH_ECDSA_WITH_AES_128_GCM_SHA256",
            TLSCipherSuite::TLS_ECDH_ECDSA_WITH_AES_256_GCM_SHA384 => "TLS_ECDH_ECDSA_WITH_AES_256_GCM_SHA384",
            TLSCipherSuite::TLS_ECDHE_RSA_WITH_AES_128_GCM_SHA256 => "TLS_ECDHE_RSA_WITH_AES_128_GCM_SHA256",
            TLSCipherSuite::TLS_ECDHE_RSA_WITH_AES_256_GCM_SHA384 => "TLS_ECDHE_RSA_WITH_AES_256_GCM_SHA384",
            TLSCipherSuite::TLS_ECDH_RSA_WITH_AES_128_GCM_SHA256 => "TLS_ECDH_RSA_WITH_AES_128_GCM_SHA256",
            TLSCipherSuite::TLS_ECDH_RSA_WITH_AES_256_GCM_SHA384 => "TLS_ECDH_RSA_WITH_AES_256_GCM_SHA384",
            TLSCipherSuite::TLS_ECDHE_PSK_WITH_RC4_128_SHA => "TLS_ECDHE_PSK_WITH_RC4_128_SHA",
            TLSCipherSuite::TLS_ECDHE_PSK_WITH_3DES_EDE_CBC_SHA => "TLS_ECDHE_PSK_WITH_3DES_EDE_CBC_SHA",
            TLSCipherSuite::TLS_ECDHE_PSK_WITH_AES_128_CBC_SHA => "TLS_ECDHE_PSK_WITH_AES_128_CBC_SHA",
            TLSCipherSuite::TLS_ECDHE_PSK_WITH_AES_256_CBC_SHA => "TLS_ECDHE_PSK_WITH_AES_256_CBC_SHA",
            TLSCipherSuite::TLS_ECDHE_PSK_WITH_AES_128_CBC_SHA256 => "TLS_ECDHE_PSK_WITH_AES_128_CBC_SHA256",
            TLSCipherSuite::TLS_ECDHE_PSK_WITH_AES_256_CBC_SHA384 => "TLS_ECDHE_PSK_WITH_AES_256_CBC_SHA384",
            TLSCipherSuite::TLS_ECDHE_PSK_WITH_NULL_SHA => "TLS_ECDHE_PSK_WITH_NULL_SHA",
            TLSCipherSuite::TLS_ECDHE_PSK_WITH_NULL_SHA256 => "TLS_ECDHE_PSK_WITH_NULL_SHA256",
            TLSCipherSuite::TLS_ECDHE_PSK_WITH_NULL_SHA384 => "TLS_ECDHE_PSK_WITH_NULL_SHA384",
            TLSCipherSuite::TLS_RSA_WITH_ARIA_128_GCM_SHA256 => "TLS_RSA_WITH_ARIA_128_GCM_SHA256",
            TLSCipherSuite::TLS_RSA_WITH_ARIA_256_GCM_SHA384 => "TLS_RSA_WITH_ARIA_256_GCM_SHA384",
            TLSCipherSuite::TLS_DHE_RSA_WITH_ARIA_128_GCM_SHA256 => "TLS_DHE_RSA_WITH_ARIA_128_GCM_SHA256",
            TLSCipherSuite::TLS_DHE_RSA_WITH_ARIA_256_GCM_SHA384 => "TLS_DHE_RSA_WITH_ARIA_256_GCM_SHA384",
            TLSCipherSuite::TLS_DHE_DSS_WITH_ARIA_128_GCM_SHA256 => "TLS_DHE_DSS_WITH_ARIA_128_GCM_SHA256",
            TLSCipherSuite::TLS_DHE_DSS_WITH_ARIA_256_GCM_SHA384 => "TLS_DHE_DSS_WITH_ARIA_256_GCM_SHA384",
            TLSCipherSuite::TLS_ECDHE_ECDSA_WITH_ARIA_128_GCM_SHA256 => "TLS_ECDHE_ECDSA_WITH_ARIA_128_GCM_SHA256",
            TLSCipherSuite::TLS_ECDHE_ECDSA_WITH_ARIA_256_GCM_SHA384 => "TLS_ECDHE_ECDSA_WITH_ARIA_256_GCM_SHA384",
            TLSCipherSuite::TLS_ECDHE_RSA_WITH_ARIA_128_GCM_SHA256 => "TLS_ECDHE_RSA_WITH_ARIA_128_GCM_SHA256",
            TLSCipherSuite::TLS_ECDHE_RSA_WITH_ARIA_256_GCM_SHA384 => "TLS_ECDHE_RSA_WITH_ARIA_256_GCM_SHA384",
            TLSCipherSuite::TLS_PSK_WITH_ARIA_128_GCM_SHA256 => "TLS_PSK_WITH_ARIA_128_GCM_SHA256",
            TLSCipherSuite::TLS_PSK_WITH_ARIA_256_GCM_SHA384 => "TLS_PSK_WITH_ARIA_256_GCM_SHA384",
            TLSCipherSuite::TLS_DHE_PSK_WITH_ARIA_128_GCM_SHA256 => "TLS_DHE_PSK_WITH_ARIA_128_GCM_SHA256",
            TLSCipherSuite::TLS_DHE_PSK_WITH_ARIA_256_GCM_SHA384 => "TLS_DHE_PSK_WITH_ARIA_256_GCM_SHA384",
            TLSCipherSuite::TLS_RSA_PSK_WITH_ARIA_128_GCM_SHA256 => "TLS_RSA_PSK_WITH_ARIA_128_GCM_SHA256",
            TLSCipherSuite::TLS_RSA_PSK_WITH_ARIA_256_GCM_SHA384 => "TLS_RSA_PSK_WITH_ARIA_256_GCM_SHA384",
            TLSCipherSuite::TLS_ECDHE_ECDSA_WITH_CAMELLIA_128_CBC_SHA256 => "TLS_ECDHE_ECDSA_WITH_CAMELLIA_128_CBC_SHA256",
            TLSCipherSuite::TLS_ECDHE_ECDSA_WITH_CAMELLIA_256_CBC_SHA384 => "TLS_ECDHE_ECDSA_WITH_CAMELLIA_256_CBC_SHA384",
            TLSCipherSuite::TLS_ECDH_ECDSA_WITH_CAMELLIA_128_CBC_SHA256 => "TLS_ECDH_ECDSA_WITH_CAMELLIA_128_CBC_SHA256",
            TLSCipherSuite::TLS_ECDH_ECDSA_WITH_CAMELLIA_256_CBC_SHA384 => "TLS_ECDH_ECDSA_WITH_CAMELLIA_256_CBC_SHA384",
            TLSCipherSuite::TLS_ECDHE_RSA_WITH_CAMELLIA_128_CBC_SHA256 => "TLS_ECDHE_RSA_WITH_CAMELLIA_128_CBC_SHA256",
            TLSCipherSuite::TLS_ECDHE_RSA_WITH_CAMELLIA_256_CBC_SHA384 => "TLS_ECDHE_RSA_WITH_CAMELLIA_256_CBC_SHA384",
            TLSCipherSuite::TLS_ECDH_RSA_WITH_CAMELLIA_128_CBC_SHA256 => "TLS_ECDH_RSA_WITH_CAMELLIA_128_CBC_SHA256",
            TLSCipherSuite::TLS_ECDH_RSA_WITH_CAMELLIA_256_CBC_SHA384 => "TLS_ECDH_RSA_WITH_CAMELLIA_256_CBC_SHA384",
            TLSCipherSuite::TLS_PSK_WITH_CAMELLIA_128_CBC_SHA256 => "TLS_PSK_WITH_CAMELLIA_128_CBC_SHA256",
            TLSCipherSuite::TLS_PSK_WITH_CAMELLIA_256_CBC_SHA384 => "TLS_PSK_WITH_CAMELLIA_256_CBC_SHA384",
            TLSCipherSuite::TLS_DHE_PSK_WITH_CAMELLIA_128_CBC_SHA256 => "TLS_DHE_PSK_WITH_CAMELLIA_128_CBC_SHA256",
            TLSCipherSuite::TLS_DHE_PSK_WITH_CAMELLIA_256_CBC_SHA384 => "TLS_DHE_PSK_WITH_CAMELLIA_256_CBC_SHA384",
            TLSCipherSuite::TLS_RSA_PSK_WITH_CAMELLIA_128_CBC_SHA256 => "TLS_RSA_PSK_WITH_CAMELLIA_128_CBC_SHA256",
            TLSCipherSuite::TLS_RSA_PSK_WITH_CAMELLIA_256_CBC_SHA384 => "TLS_RSA_PSK_WITH_CAMELLIA_256_CBC_SHA384",
            TLSCipherSuite::TLS_ECDHE_PSK_WITH_CAMELLIA_128_CBC_SHA256 => "TLS_ECDHE_PSK_WITH_CAMELLIA_128_CBC_SHA256",
            TLSCipherSuite::TLS_ECDHE_PSK_WITH_CAMELLIA_256_CBC_SHA384 => "TLS_ECDHE_PSK_WITH_CAMELLIA_256_CBC_SHA384",
            TLSCipherSuite::TLS_RSA_WITH_AES_128_CCM => "TLS_RSA_WITH_AES_128_CCM",
            TLSCipherSuite::TLS_RSA_WITH_AES_256_CCM => "TLS_RSA_WITH_AES_256_CCM",
            TLSCipherSuite::TLS_DHE_RSA_WITH_AES_128_CCM => "TLS_DHE_RSA_WITH_AES_128_CCM",
            TLSCipherSuite::TLS_DHE_RSA_WITH_AES_256_CCM => "TLS_DHE_RSA_WITH_AES_256_CCM",
            TLSCipherSuite::TLS_RSA_WITH_AES_128_CCM_8 => "TLS_RSA_WITH_AES_128_CCM_8",
            TLSCipherSuite::TLS_RSA_WITH_AES_256_CCM_8 => "TLS_RSA_WITH_AES_256_CCM_8",
            TLSCipherSuite::TLS_DHE_RSA_WITH_AES_128_CCM_8 => "TLS_DHE_RSA_WITH_AES_128_CCM_8",
            TLSCipherSuite::TLS_DHE_RSA_WITH_AES_256_CCM_8 => "TLS_DHE_RSA_WITH_AES_256_CCM_8",
            TLSCipherSuite::TLS_PSK_WITH_AES_128_CCM => "TLS_PSK_WITH_AES_128_CCM",
            TLSCipherSuite::TLS_PSK_WITH_AES_256_CCM => "TLS_PSK_WITH_AES_256_CCM",
            TLSCipherSuite::TLS_DHE_PSK_WITH_AES_128_CCM => "TLS_DHE_PSK_WITH_AES_128_CCM",
            TLSCipherSuite::TLS_DHE_PSK_WITH_AES_256_CCM => "TLS_DHE_PSK_WITH_AES_256_CCM",
            TLSCipherSuite::TLS_PSK_WITH_AES_128_CCM_8 => "TLS_PSK_WITH_AES_128_CCM_8",
            TLSCipherSuite::TLS_PSK_WITH_AES_256_CCM_8 => "TLS_PSK_WITH_AES_256_CCM_8",
            TLSCipherSuite::TLS_PSK_DHE_WITH_AES_128_CCM_8 => "TLS_PSK_DHE_WITH_AES_128_CCM_8",
            TLSCipherSuite::TLS_PSK_DHE_WITH_AES_256_CCM_8 => "TLS_PSK_DHE_WITH_AES_256_CCM_8",
            TLSCipherSuite::TLS_ECDHE_ECDSA_WITH_AES_128_CCM => "TLS_ECDHE_ECDSA_WITH_AES_128_CCM",
            TLSCipherSuite::TLS_ECDHE_ECDSA_WITH_AES_256_CCM => "TLS_ECDHE_ECDSA_WITH_AES_256_CCM",
            TLSCipherSuite::TLS_ECDHE_ECDSA_WITH_AES_128_CCM_8 => "TLS_ECDHE_ECDSA_WITH_AES_128_CCM_8",
            TLSCipherSuite::TLS_ECDHE_ECDSA_WITH_AES_256_CCM_8 => "TLS_ECDHE_ECDSA_WITH_AES_256_CCM_8",
            TLSCipherSuite::OLD_TLS_ECDHE_RSA_WITH_CHACHA20_POLY1305_SHA256 => "OLD_TLS_ECDHE_RSA_WITH_CHACHA20_POLY1305_SHA256",
            TLSCipherSuite::OLD_TLS_ECDHE_ECDSA_WITH_CHACHA20_POLY1305_SHA256 => "OLD_TLS_ECDHE_ECDSA_WITH_CHACHA20_POLY1305_SHA256",
            TLSCipherSuite::OLD_TLS_DHE_RSA_WITH_CHACHA20_POLY1305_SHA256 => "OLD_TLS_DHE_RSA_WITH_CHACHA20_POLY1305_SHA256",
            TLSCipherSuite::TLS_ECDHE_RSA_WITH_CHACHA20_POLY1305_SHA256 => "TLS_ECDHE_RSA_WITH_CHACHA20_POLY1305_SHA256",
            TLSCipherSuite::TLS_ECDHE_ECDSA_WITH_CHACHA20_POLY1305_SHA256 => "TLS_ECDHE_ECDSA_WITH_CHACHA20_POLY1305_SHA256",
            TLSCipherSuite::TLS_DHE_RSA_WITH_CHACHA20_POLY1305_SHA256 => "TLS_DHE_RSA_WITH_CHACHA20_POLY1305_SHA256",
            TLSCipherSuite::TLS_PSK_WITH_CHACHA20_POLY1305_SHA256 => "TLS_PSK_WITH_CHACHA20_POLY1305_SHA256",
            TLSCipherSuite::TLS_ECDHE_PSK_WITH_CHACHA20_POLY1305_SHA256 => "TLS_ECDHE_PSK_WITH_CHACHA20_POLY1305_SHA256",
            TLSCipherSuite::TLS_DHE_PSK_WITH_CHACHA20_POLY1305_SHA256 => "TLS_DHE_PSK_WITH_CHACHA20_POLY1305_SHA256",
            TLSCipherSuite::TLS_RSA_PSK_WITH_CHACHA20_POLY1305_SHA256 => "TLS_RSA_PSK_WITH_CHACHA20_POLY1305_SHA256",
        }
    }

    /// The suite at place `i` in declaration order.
    pub fn at(i: usize) -> (r: Self)
        requires
            i < TLS_SUITE_COUNT,
        ensures
            r == Self::spec_at(i as int),
    {
        reveal(TLSCipherSuite::spec_at);
        match i {
            0 => TLSCipherSuite::TLS_RSA_WITH_NULL_MD5,
            1 => TLSCipherSuite::TLS_RSA_WITH_NULL_SHA,
            2 => TLSCipherSuite::TLS_RSA_EXPORT_WITH_RC4_40_MD5,
            3 => TLSCipherSuite::TLS_RSA_WITH_RC4_128_MD5,
            4 => TLSCipherSuite::TLS_RSA_WITH_RC4_128_SHA,
            5 => TLSCipherSuite::TLS_RSA_EXPORT_WITH_RC2_CBC_40_MD5,
            6 => TLSCipherSuite::TLS_RSA_WITH_IDEA_CBC_SHA,
            7 => TLSCipherSuite::TLS_RSA_EXPORT_WITH_DES40_CBC_SHA,
            8 => TLSCipherSuite::TLS_RSA_WITH_DES_CBC_SHA,
            9 => TLSCipherSuite::TLS_RSA_WITH_3DES_EDE_CBC_SHA,
            10 => TLSCipherSuite::TLS_DH_DSS_EXPORT_WITH_DES40_CBC_SHA,
            11 => TLSCipherSuite::TLS_DH_DSS_WITH_DES_CBC_SHA,
            12 => TLSCipherSuite::TLS_DH_DSS_WITH_3DES_EDE_CBC_SHA,
            13 => TLSCipherSuite::TLS_DH_RSA_EXPORT_WITH_DES40_CBC_SHA,
            14 => TLSCipherSuite::TLS_DH_RSA_WITH_DES_CBC_SHA,
            15 => TLSCipherSuite::TLS_DH_RSA_WITH_3DES_EDE_CBC_SHA,
            16 => TLSCipherSuite::TLS_DHE_DSS_EXPORT_WITH_DES40_CBC_SHA,
            17 => TLSCipherSuite::TLS_DHE_DSS_WITH_DES_CBC_SHA,
            18 => TLSCipherSuite::TLS_DHE_DSS_WITH_3DES_EDE_CBC_SHA,
            19 => TLSCipherSuite::TLS_DHE_RSA_EXPORT_WITH_DES40_CBC_SHA,
            20 => TLSCipherSuite::TLS_DHE_RSA_WITH_DES_CBC_SHA,
            21 => TLSCipherSuite::TLS_DHE_RSA_WITH_3DES_EDE_CBC_SHA,
            22 => TLSCipherSuite::TLS_DH_anon_EXPORT_WITH_RC4_40_MD5,
            23 => TLSCipherSuite::TLS_DH_anon_WITH_RC4_128_MD5,
            24 => TLSCipherSuite::TLS_DH_anon_EXPORT_WITH_DES40_CBC_SHA,
            25 => TLSCipherSuite::TLS_DH_anon_WITH_DES_CBC_SHA,
            26 => TLSCipherSuite::TLS_DH_anon_WITH_3DES_EDE_CBC_SHA,
            27 => TLSCipherSuite::TLS_KRB5_WITH_DES_CBC_SHA,
            28 => TLSCipherSuite::TLS_KRB5_WITH_3DES_EDE_CBC_SHA,
            29 => TLSCipherSuite::TLS_KRB5_WITH_RC4_128_SHA,
            30 => TLSCipherSuite::TLS_KRB5_WITH_IDEA_CBC_SHA,
            31 => TLSCipherSuite::TLS_KRB5_WITH_DES_CBC_MD5,
            32 => TLSCipherSuite::TLS_KRB5_WITH_3DES_EDE_CBC_MD5,
            33 => TLSCipherSuite::TLS_KRB5_WITH_RC4_128_MD5,
            34 => TLSCipherSuite::TLS_KRB5_WITH_IDEA_CBC_MD5,
            35 => TLSCipherSuite::TLS_KRB5_EXPORT_WITH_DES_CBC_40_SHA,
            36 => TLSCipherSuite::TLS_KRB5_EXPORT_WITH_RC2_CBC_40_SHA,
            37 => TLSCipherSuite::TLS_KRB5_EXPORT_WITH_RC4_40_SHA,
            38 => TLSCipherSuite::TLS_KRB5_EXPORT_WITH_DES_CBC_40_MD5,
            39 => TLSCipherSuite::TLS_KRB5_EXPORT_WITH_RC2_CBC_40_MD5,
            40 => TLSCipherSuite::TLS_KRB5_EXPORT_WITH_RC4_40_MD5,
            41 => TLSCipherSuite::TLS_PSK_WITH_NULL_SHA,
            42 => TLSCipherSuite::TLS_DHE_PSK_WITH_NULL_SHA,
            43 => TLSCipherSuite::TLS_RSA_PSK_WITH_NULL_SHA,
            44 => TLSCipherSuite::TLS_RSA_WITH_AES_128_CBC_SHA,
            45 => TLSCipherSuite::TLS_DH_DSS_WITH_AES_128_CBC_SHA,
            46 => TLSCipherSuite::TLS_DH_RSA_WITH_AES_128_CBC_SHA,
            47 => TLSCipherSuite::TLS_DHE_DSS_WITH_AES_128_CBC_SHA,
            48 => TLSCipherSuite::TLS_DHE_RSA_WITH_AES_128_CBC_SHA,
            49 => TLSCipherSuite::TLS_DH_anon_WITH_AES_128_CBC_SHA,
            50 => TLSCipherSuite::TLS_RSA_WITH_AES_256_CBC_SHA,
            51 => TLSCipherSuite::TLS_DH_DSS_WITH_AES_256_CBC_SHA,
            52 => TLSCipherSuite::TLS_DH_RSA_WITH_AES_256_CBC_SHA,
            53 => TLSCipherSuite::TLS_DHE_DSS_WITH_AES_256_CBC_SHA,
            54 => TLSCipherSuite::TLS_DHE_RSA_WITH_AES_256_CBC_SHA,
            55 => TLSCipherSuite::TLS_DH_anon_WITH_AES_256_CBC_SHA,
            56 => TLSCipherSuite::TLS_RSA_WITH_NULL_SHA256,
            57 => TLSCipherSuite::TLS_RSA_WITH_AES_128_CBC_SHA256,
            58 => TLSCipherSuite::TLS_RSA_WITH_AES_256_CBC_SHA256,
            59 => TLSCipherSuite::TLS_DH_DSS_WITH_AES_128_CBC_SHA256,
            60 => TLSCipherSuite::TLS_DH_RSA_WITH_AES_128_CBC_SHA256,
            61 => TLSCipherSuite::TLS_DHE_DSS_WITH_AES_128_CBC_SHA256,
            62 => TLSCipherSuite::TLS_RSA_WITH_CAMELLIA_128_CBC_SHA,
            63 => TLSCipherSuite::TLS_DH_DSS_WITH_CAMELLIA_128_CBC_SHA,
            64 => TLSCipherSuite::TLS_DH_RSA_WITH_CAMELLIA_128_CBC_SHA,
            65 => TLSCipherSuite::TLS_DHE_DSS_WITH_CAMELLIA_128_CBC_SHA,
            66 => TLSCipherSuite::TLS_DHE_RSA_WITH_CAMELLIA_128_CBC_SHA,
            67 => TLSCipherSuite::TLS_DH_anon_WITH_CAMELLIA_128_CBC_SHA,
            68 => TLSCipherSuite::TLS_RSA_EXPORT1024_WITH_RC4_56_MD5,
            69 => TLSCipherSuite::TLS_RSA_EXPORT1024_WITH_RC2_CBC_56_MD5,
            70 => TLSCipherSuite::TLS_RSA_EXPORT1024_WITH_DES_CBC_SHA,
            71 => TLSCipherSuite::TLS_DHE_DSS_EXPORT1024_WITH_DES_CBC_SHA,
            72 => TLSCipherSuite::TLS_RSA_EXPORT1024_WITH_RC4_56_SHA,
            73 => TLSCipherSuite::TLS_DHE_DSS_EXPORT1024_WITH_RC4_56_SHA,
            74 => TLSCipherSuite::TLS_DHE_DSS_WITH_RC4_128_SHA,
            75 => TLSCipherSuite::TLS_DHE_RSA_WITH_AES_128_CBC_SHA256,
            76 => TLSCipherSuite::TLS_DH_DSS_WITH_AES_256_CBC_SHA256,
            77 => TLSCipherSuite::TLS_DH_RSA_WITH_AES_256_CBC_SHA256,
            78 => TLSCipherSuite::TLS_DHE_DSS_WITH_AES_256_CBC_SHA256,
            79 => TLSCipherSuite::TLS_DHE_RSA_WITH_AES_256_CBC_SHA256,
            80 => TLSCipherSuite::TLS_DH_anon_WITH_AES_128_CBC_SHA256,
            81 => TLSCipherSuite::TLS_DH_anon_WITH_AES_256_CBC_SHA256,
            82 => TLSCipherSuite::TLS_GOSTR341094_WITH_28147_CNT_IMIT,
            83 => TLSCipherSuite::TLS_GOSTR341001_WITH_28147_CNT_IMIT,
            84 => TLSCipherSuite::TLS_GOSTR341094_WITH_NULL_GOSTR3411,
            85 => TLSCipherSuite::TLS_GOSTR341001_WITH_NULL_GOSTR3411,
            86 => TLSCipherSuite::TLS_RSA_WITH_CAMELLIA_256_CBC_SHA,
            87 => TLSCipherSuite::TLS_DH_DSS_WITH_CAMELLIA_256_CBC_SHA,
            88 => TLSCipherSuite::TLS_DH_RSA_WITH_CAMELLIA_256_CBC_SHA,
            89 => TLSCipherSuite::TLS_DHE_DSS_WITH_CAMELLIA_256_CBC_SHA,
            90 => TLSCipherSuite::TLS_DHE_RSA_WITH_CAMELLIA_256_CBC_SHA,
            91 => TLSCipherSuite::TLS_DH_anon_WITH_CAMELLIA_256_CBC_SHA,
            92 => TLSCipherSuite::TLS_PSK_WITH_RC4_128_SHA,
            93 => TLSCipherSuite::TLS_PSK_WITH_3DES_EDE_CBC_SHA,
            94 => TLSCipherSuite::TLS_PSK_WITH_AES_128_CBC_SHA,
            95 => TLSCipherSuite::TLS_PSK_WITH_AES_256_CBC_SHA,
            96 => TLSCipherSuite::TLS_DHE_PSK_WITH_RC4_128_SHA,
            97 => TLSCipherSuite::TLS_DHE_PSK_WITH_3DES_EDE_CBC_SHA,
            98 => TLSCipherSuite::TLS_DHE_PSK_WITH_AES_128_CBC_SHA,
            99 => TLSCipherSuite::TLS_DHE_PSK_WITH_AES_256_CBC_SHA,
            100 => TLSCipherSuite::TLS_RSA_PSK_WITH_RC4_128_SHA,
            101 => TLSCipherSuite::TLS_RSA_PSK_WITH_3DES_EDE_CBC_SHA,
            102 => TLSCipherSuite::TLS_RSA_PSK_WITH_AES_128_CBC_SHA,
            103 => TLSCipherSuite::TLS_RSA_PSK_WITH_AES_256_CBC_SHA,
            104 => TLSCipherSuite::TLS_RSA_WITH_SEED_CBC_SHA,
            105 => TLSCipherSuite::TLS_DH_DSS_WITH_SEED_CBC_SHA,
            106 => TLSCipherSuite::TLS_DH_RSA_WITH_SEED_CBC_SHA,
            107 => TLSCipherSuite::TLS_DHE_DSS_WITH_SEED_CBC_SHA,
            108 => TLSCipherSuite::TLS_DHE_RSA_WITH_SEED_CBC_SHA,
            109 => TLSCipherSuite::TLS_DH_anon_WITH_SEED_CBC_SHA,
            110 => TLSCipherSuite::TLS_RSA_WITH_AES_128_GCM_SHA256,
            111 => TLSCipherSuite::TLS_RSA_WITH_AES_256_GCM_SHA384,
            112 => TLSCipherSuite::TLS_DHE_RSA_WITH_AES_128_GCM_SHA256,
            113 => TLSCipherSuite::TLS_DHE_RSA_WITH_AES_256_GCM_SHA384,
            114 => TLSCipherSuite::TLS_DH_RSA_WITH_AES_128_GCM_SHA256,
            115 => TLSCipherSuite::TLS_DH_RSA_WITH_AES_256_GCM_SHA384,
            116 => TLSCipherSuite::TLS_DHE_DSS_WITH_AES_128_GCM_SHA256,
            117 => TLSCipherSuite::TLS_DHE_DSS_WITH_AES_256_GCM_SHA384,
            118 => TLSCipherSuite::TLS_DH_DSS_WITH_AES_128_GCM_SHA256,
            119 => TLSCipherSuite::TLS_DH_DSS_WITH_AES_256_GCM_SHA384,
            120 => TLSCipherSuite::TLS_DH_anon_WITH_AES_128_GCM_SHA256,
            121 => TLSCipherSuite::TLS_DH_anon_WITH_AES_256_GCM_SHA384,
            122 => TLSCipherSuite::TLS_PSK_WITH_AES_128_GCM_SHA256,
            123 => TLSCipherSuite::TLS_PSK_WITH_AES_256_GCM_SHA384,
            124 => TLSCipherSuite::TLS_DHE_PSK_WITH_AES_128_GCM_SHA256,
            125 => TLSCipherSuite::TLS_DHE_PSK_WITH_AES_256_GCM_SHA384,
            126 => TLSCipherSuite::TLS_RSA_PSK_WITH_AES_128_GCM_SHA256,
            127 => TLSCipherSuite::TLS_RSA_PSK_WITH_AES_256_GCM_SHA384,
            128 => TLSCipherSuite::TLS_PSK_WITH_AES_128_CBC_SHA256,
            129 => TLSCipherSuite::TLS_PSK_WITH_AES_256_CBC_SHA384,
            130 => TLSCipherSuite::TLS_PSK_WITH_NULL_SHA256,
            131 => TLSCipherSuite::TLS_PSK_WITH_NULL_SHA384,
            132 => TLSCipherSuite::TLS_DHE_PSK_WITH_AES_128_CBC_SHA256,
            133 => TLSCipherSuite::TLS_DHE_PSK_WITH_AES_256_CBC_SHA384,
            134 => TLSCipherSuite::TLS_DHE_PSK_WITH_NULL_SHA256,
            135 => TLSCipherSuite::TLS_DHE_PSK_WITH_NULL_SHA384,
            136 => TLSCipherSuite::TLS_RSA_PSK_WITH_AES_128_CBC_SHA256,
            137 => TLSCipherSuite::TLS_RSA_PSK_WITH_AES_256_CBC_SHA384,
            138 => TLSCipherSuite::TLS_RSA_PSK_WITH_NULL_SHA256,
            139 => TLSCipherSuite::TLS_RSA_PSK_WITH_NULL_SHA384,
            140 => TLSCipherSuite::TLS_RSA_WITH_CAMELLIA_128_CBC_SHA256,
            141 => TLSCipherSuite::TLS_DH_DSS_WITH_CAMELLIA_128_CBC_SHA256,
            142 => TLSCipherSuite::TLS_DH_RSA_WITH_CAMELLIA_128_CBC_SHA256,
            143 => TLSCipherSuite::TLS_DHE_DSS_WITH_CAMELLIA_128_CBC_SHA256,
            144 => TLSCipherSuite::TLS_DHE_RSA_WITH_CAMELLIA_128_CBC_SHA256,
            145 => TLSCipherSuite::TLS_DH_anon_WITH_CAMELLIA_128_CBC_SHA256,
            146 => TLSCipherSuite::TLS_RSA_WITH_CAMELLIA_256_CBC_SHA256,
            147 => TLSCipherSuite::TLS_DH_DSS_WITH_CAMELLIA_256_CBC_SHA256,
            148 => TLSCipherSuite::TLS_DH_RSA_WITH_CAMELLIA_256_CBC_SHA256,
            149 => TLSCipherSuite::TLS_DHE_DSS_WITH_CAMELLIA_256_CBC_SHA256,
            150 => TLSCipherSuite::TLS_DHE_RSA_WITH_CAMELLIA_256_CBC_SHA256,
            151 => TLSCipherSuite::TLS_DH_anon_WITH_CAMELLIA_256_CBC_SHA256,
            152 => TLSCipherSuite::TLS_AES_128_GCM_SHA256,
            153 => TLSCipherSuite::TLS_AES_256_GCM_SHA384,
            154 => TLSCipherSuite::TLS_CHACHA20_POLY1305_SHA256,
            155 => TLSCipherSuite::TLS_AES_128_CCM_SHA256,
            156 => TLSCipherSuite::TLS_AES_128_CCM_8_SHA256,
            157 => TLSCipherSuite::TLS_ECDH_ECDSA_WITH_NULL_SHA,
            158 => TLSCipherSuite::TLS_ECDH_ECDSA_WITH_RC4_128_SHA,
            159 => TLSCipherSuite::TLS_ECDH_ECDSA_WITH_3DES_EDE_CBC_SHA,
            160 => TLSCipherSuite::TLS_ECDH_ECDSA_WITH_AES_128_CBC_SHA,
            161 => TLSCipherSuite::TLS_ECDH_ECDSA_WITH_AES_256_CBC_SHA,
            162 => TLSCipherSuite::TLS_ECDHE_ECDSA_WITH_NULL_SHA,
            163 => TLSCipherSuite::TLS_ECDHE_ECDSA_WITH_RC4_128_SHA,
            164 => TLSCipherSuite::TLS_ECDHE_ECDSA_WITH_3DES_EDE_CBC_SHA,
            165 => TLSCipherSuite::TLS_ECDHE_ECDSA_WITH_AES_128_CBC_SHA,
            166 => TLSCipherSuite::TLS_ECDHE_ECDSA_WITH_AES_256_CBC_SHA,
            167 => TLSCipherSuite::TLS_ECDH_RSA_WITH_NULL_SHA,
            168 => TLSCipherSuite::TLS_ECDH_RSA_WITH_RC4_128_SHA,
            169 => TLSCipherSuite::TLS_ECDH_RSA_WITH_3DES_EDE_CBC_SHA,
            170 => TLSCipherSuite::TLS_ECDH_RSA_WITH_AES_128_CBC_SHA,
            171 => TLSCipherSuite::TLS_ECDH_RSA_WITH_AES_256_CBC_SHA,
            172 => TLSCipherSuite::TLS_ECDHE_RSA_WITH_NULL_SHA,
            173 => TLSCipherSuite::TLS_ECDHE_RSA_WITH_RC4_128_SHA,
            174 => TLSCipherSuite::TLS_ECDHE_RSA_WITH_3DES_EDE_CBC_SHA,
            175 => TLSCipherSuite::TLS_ECDHE_RSA_WITH_AES_128_CBC_SHA,
            176 => TLSCipherSuite::TLS_ECDHE_RSA_WITH_AES_256_CBC_SHA,
            177 => TLSCipherSuite::TLS_ECDH_anon_WITH_NULL_SHA,
            178 => TLSCipherSuite::TLS_ECDH_anon_WITH_RC4_128_SHA,
            179 => TLSCipherSuite::TLS_ECDH_anon_WITH_3DES_EDE_CBC_SHA,
            180 => TLSCipherSuite::TLS_ECDH_anon_WITH_AES_128_CBC_SHA,
            181 => TLSCipherSuite::TLS_ECDH_anon_WITH_AES_256_CBC_SHA,
            182 => TLSCipherSuite::TLS_SRP_SHA_WITH_3DES_EDE_CBC_SHA,
            183 => TLSCipherSuite::TLS_SRP_SHA_RSA_WITH_3DES_EDE_CBC_SHA,
            184 => TLSCipherSuite::TLS_SRP_SHA_DSS_WITH_3DES_EDE_CBC_SHA,
            185 => TLSCipherSuite::TLS_SRP_SHA_WITH_AES_128_CBC_SHA,
            186 => TLSCipherSuite::TLS_SRP_SHA_RSA_WITH_AES_128_CBC_SHA,
            187 => TLSCipherSuite::TLS_SRP_SHA_DSS_WITH_AES_128_CBC_SHA,
            188 => TLSCipherSuite::TLS_SRP_SHA_WITH_AES_256_CBC_SHA,
            189 => TLSCipherSuite::TLS_SRP_SHA_RSA_WITH_AES_256_CBC_SHA,
            190 => TLSCipherSuite::TLS_SRP_SHA_DSS_WITH_AES_256_CBC_SHA,
            191 => TLSCipherSuite::TLS_ECDHE_ECDSA_WITH_AES_128_CBC_SHA256,
            192 => TLSCipherSuite::TLS_ECDHE_ECDSA_WITH_AES_256_CBC_SHA384,
            193 => TLSCipherSuite::TLS_ECDH_ECDSA_WITH_AES_128_CBC_SHA256,
            194 => TLSCipherSuite::TLS_ECDH_ECDSA_WITH_AES_256_CBC_SHA384,
            195 => TLSCipherSuite::TLS_ECDHE_RSA_WITH_AES_128_CBC_SHA256,
            196 => TLSCipherSuite::TLS_ECDHE_RSA_WITH_AES_256_CBC_SHA384,
            197 => TLSCipherSuite::TLS_ECDH_RSA_WITH_AES_128_CBC_SHA256,
            198 => TLSCipherSuite::TLS_ECDH_RSA_WITH_AES_256_CBC_SHA384,
            199 => TLSCipherSuite::TLS_ECDHE_ECDSA_WITH_AES_128_GCM_SHA256,
            200 => TLSCipherSuite::TLS_ECDHE_ECDSA_WITH_AES_256_GCM_SHA384,
            201 => TLSCipherSuite::TLS_ECDH_ECDSA_WITH_AES_128_GCM_SHA256,
            202 => TLSCipherSuite::TLS_ECDH_ECDSA_WITH_AES_256_GCM_SHA384,
            203 => TLSCipherSuite::TLS_ECDHE_RSA_WITH_AES_128_GCM_SHA256,
            204 => TLSCipherSuite::TLS_ECDHE_RSA_WITH_AES_256_GCM_SHA384,
            205 => TLSCipherSuite::TLS_ECDH_RSA_WITH_AES_128_GCM_SHA256,
            206 => TLSCipherSuite::TLS_ECDH_RSA_WITH_AES_256_GCM_SHA384,
            207 => TLSCipherSuite::TLS_ECDHE_PSK_WITH_RC4_128_SHA,
            208 => TLSCipherSuite::TLS_ECDHE_PSK_WITH_3DES_EDE_CBC_SHA,
            209 => TLSCipherSuite::TLS_ECDHE_PSK_WITH_AES_128_CBC_SHA,
            210 => TLSCipherSuite::TLS_ECDHE_PSK_WITH_AES_256_CBC_SHA,
            211 => TLSCipherSuite::TLS_ECDHE_PSK_WITH_AES_128_CBC_SHA256,
            212 => TLSCipherSuite::TLS_ECDHE_PSK_WITH_AES_256_CBC_SHA384,
            213 => TLSCipherSuite::TLS_ECDHE_PSK_WITH_NULL_SHA,
            214 => TLSCipherSuite::TLS_ECDHE_PSK_WITH_NULL_SHA256,
            215 => TLSCipherSuite::TLS_ECDHE_PSK_WITH_NULL_SHA384,
            216 => TLSCipherSuite::TLS_RSA_WITH_ARIA_128_GCM_SHA256,
            217 => TLSCipherSuite::TLS_RSA_WITH_ARIA_256_GCM_SHA384,
            218 => TLSCipherSuite::TLS_DHE_RSA_WITH_ARIA_128_GCM_SHA256,
            219 => TLSCipherSuite::TLS_DHE_RSA_WITH_ARIA_256_GCM_SHA384,
            220 => TLSCipherSuite::TLS_DHE_DSS_WITH_ARIA_128_GCM_SHA256,
            221 => TLSCipherSuite::TLS_DHE_DSS_WITH_ARIA_256_GCM_SHA384,
            222 => TLSCipherSuite::TLS_ECDHE_ECDSA_WITH_ARIA_128_GCM_SHA256,
            223 => TLSCipherSuite::TLS_ECDHE_ECDSA_WITH_ARIA_256_GCM_SHA384,
            224 => TLSCipherSuite::TLS_ECDHE_RSA_WITH_ARIA_128_GCM_SHA256,
            225 => TLSCipherSuite::TLS_ECDHE_RSA_WITH_ARIA_256_GCM_SHA384,
            226 => TLSCipherSuite::TLS_PSK_WITH_ARIA_128_GCM_SHA256,
            227 => TLSCipherSuite::TLS_PSK_WITH_ARIA_256_GCM_SHA384,
            228 => TLSCipherSuite::TLS_DHE_PSK_WITH_ARIA_128_GCM_SHA256,
            229 => TLSCipherSuite::TLS_DHE_PSK_WITH_ARIA_256_GCM_SHA384,
            230 => TLSCipherSuite::TLS_RSA_PSK_WITH_ARIA_128_GCM_SHA256,
            231 => TLSCipherSuite::TLS_RSA_PSK_WITH_ARIA_256_GCM_SHA384,
            232 => TLSCipherSuite::TLS_ECDHE_ECDSA_WITH_CAMELLIA_128_CBC_SHA256,
            233 => TLSCipherSuite::TLS_ECDHE_ECDSA_WITH_CAMELLIA_256_CBC_SHA384,
            234 => TLSCipherSuite::TLS_ECDH_ECDSA_WITH_CAMELLIA_128_CBC_SHA256,
            235 => TLSCipherSuite::TLS_ECDH_ECDSA_WITH_CAMELLIA_256_CBC_SHA384,
            236 => TLSCipherSuite::TLS_ECDHE_RSA_WITH_CAMELLIA_128_CBC_SHA256,
            237 => TLSCipherSuite::TLS_ECDHE_RSA_WITH_CAMELLIA_256_CBC_SHA384,
            238 => TLSCipherSuite::TLS_ECDH_RSA_WITH_CAMELLIA_128_CBC_SHA256,
            239 => TLSCipherSuite::TLS_ECDH_RSA_WITH_CAMELLIA_256_CBC_SHA384,
            240 => TLSCipherSuite::TLS_PSK_WITH_CAMELLIA_128_CBC_SHA256,
            241 => TLSCipherSuite::TLS_PSK_WITH_CAMELLIA_256_CBC_SHA384,
            242 => TLSCipherSuite::TLS_DHE_PSK_WITH_CAMELLIA_128_CBC_SHA256,
            243 => TLSCipherSuite::TLS_DHE_PSK_WITH_CAMELLIA_256_CBC_SHA384,
            244 => TLSCipherSuite::TLS_RSA_PSK_WITH_CAMELLIA_128_CBC_SHA256,
            245 => TLSCipherSuite::TLS_RSA_PSK_WITH_CAMELLIA_256_CBC_SHA384,
            246 => TLSCipherSuite::TLS_ECDHE_PSK_WITH_CAMELLIA_128_CBC_SHA256,
            247 => TLSCipherSuite::TLS_ECDHE_PSK_WITH_CAMELLIA_256_CBC_SHA384,
            248 => TLSCipherSuite::TLS_RSA_WITH_AES_128_CCM,
            249 => TLSCipherSuite::TLS_RSA_WITH_AES_256_CCM,
            250 => TLSCipherSuite::TLS_DHE_RSA_WITH_AES_128_CCM,
            251 => TLSCipherSuite::TLS_DHE_RSA_WITH_AES_256_CCM,
            252 => TLSCipherSuite::TLS_RSA_WITH_AES_128_CCM_8,
            253 => TLSCipherSuite::TLS_RSA_WITH_AES_256_CCM_8,
            254 => TLSCipherSuite::TLS_DHE_RSA_WITH_AES_128_CCM_8,
            255 => TLSCipherSuite::TLS_DHE_RSA_WITH_AES_256_CCM_8,
            256 => TLSCipherSuite::TLS_PSK_WITH_AES_128_CCM,
            257 => TLSCipherSuite::TLS_PSK_WITH_AES_256_CCM,
            258 => TLSCipherSuite::TLS_DHE_PSK_WITH_AES_128_CCM,
            259 => TLSCipherSuite::TLS_DHE_PSK_WITH_AES_256_CCM,
            260 => TLSCipherSuite::TLS_PSK_WITH_AES_128_CCM_8,
            261 => TLSCipherSuite::TLS_PSK_WITH_AES_256_CCM_8,
            262 => TLSCipherSuite::TLS_PSK_DHE_WITH_AES_128_CCM_8,
            263 => TLSCipherSuite::TLS_PSK_DHE_WITH_AES_256_CCM_8,
            264 => TLSCipherSuite::TLS_ECDHE_ECDSA_WITH_AES_128_CCM,
            265 => TLSCipherSuite::TLS_ECDHE_ECDSA_WITH_AES_256_CCM,
            266 => TLSCipherSuite::TLS_ECDHE_ECDSA_WITH_AES_128_CCM_8,
            267 => TLSCipherSuite::TLS_ECDHE_ECDSA_WITH_AES_256_CCM_8,
            268 => TLSCipherSuite::OLD_TLS_ECDHE_RSA_WITH_CHACHA20_POLY1305_SHA256,
            269 => TLSCipherSuite::OLD_TLS_ECDHE_ECDSA_WITH_CHACHA20_POLY1305_SHA256,
            270 => TLSCipherSuite::OLD_TLS_DHE_RSA_WITH_CHACHA20_POLY1305_SHA256,
            271 => TLSCipherSuite::TLS_ECDHE_RSA_WITH_CHACHA20_POLY1305_SHA256,
            272 => TLSCipherSuite::TLS_ECDHE_ECDSA_WITH_CHACHA20_POLY1305_SHA256,
            273 => TLSCipherSuite::TLS_DHE_RSA_WITH_CHACHA20_POLY1305_SHA256,
            274 => TLSCipherSuite::TLS_PSK_WITH_CHACHA20_POLY1305_SHA256,
            275 => TLSCipherSuite::TLS_ECDHE_PSK_WITH_CHACHA20_POLY1305_SHA256,
            276 => TLSCipherSuite::TLS_DHE_PSK_WITH_CHACHA20_POLY1305_SHA256,
            _ => TLSCipherSuite::TLS_RSA_PSK_WITH_CHACHA20_POLY1305_SHA256,
        }
    }

    /// Lists every suite once, in declaration order.
    pub fn enumerate() -> (r: Vec<Self>)
        ensures
            r@ == Self::spec_all(),
    {
        let mut r: Vec<Self> = Vec::new();
        let mut i: usize = 0;
        while i < TLS_SUITE_COUNT
            invariant
                i <= TLS_SUITE_COUNT,
                r@.len() == i,
                forall|j: int| 0 <= j < i ==> r@[j] == Self::spec_at(j),
            decreases TLS_SUITE_COUNT - i,
        {
            r.push(Self::at(i));
            i = i + 1;
        }
        assert(r@ =~= Self::spec_all());
        r
    }

    /// Looks a suite up by its OpenSSL spelling, matched exactly and case-sensitively;
    /// `None` when no suite has that OpenSSL spelling.
    pub fn from_openssl_name(name: &str) -> (r: Option<Self>)
        ensures
            r == Self::spec_from_openssl_name(name@),
    {
        let mut i: usize = 0;
        while i < TLS_SUITE_COUNT
            invariant
                i <= TLS_SUITE_COUNT,
                forall|j: int| 0 <= j < i ==> Self::spec_at(j).spec_openssl_name() != name@,
            decreases TLS_SUITE_COUNT - i,
        {
            let c = Self::at(i);
            if same_text(name, c.as_openssl_name()) {
                proof {
                    Self::lemma_openssl_names_distinct();
                    assert(c.spec_openssl_name() == name@);
                }
                return Some(c);
            }
            i = i + 1;
        }
        proof {
            Self::lemma_positions();
            assert forall|c: Self| c.spec_openssl_name() != name@ by {
                assert(Self::spec_at(c.spec_position()) == c);
            }
        }
        None
    }

    /// Looks a suite up by its RFC identifier, matched exactly and case-sensitively;
    /// `None` when no suite has that RFC identifier.
    pub fn from_rfc_name(name: &str) -> (r: Option<Self>)
        ensures
            r == Self::spec_from_rfc_name(name@),
    {
        let mut i: usize = 0;
        while i < TLS_SUITE_COUNT
            invariant
                i <= TLS_SUITE_COUNT,
                forall|j: int| 0 <= j < i ==> Self::spec_at(j).spec_rfc_name() != name@,
            decreases TLS_SUITE_COUNT - i,
        {
            let c = Self::at(i);
            if same_text(name, c.as_rfc_name()) {
                proof {
                    Self::lemma_rfc_names_distinct();
                    assert(c.spec_rfc_name() == name@);
                }
                return Some(c);
            }
            i = i + 1;
        }
        proof {
            Self::lemma_positions();
            assert forall|c: Self| c.spec_rfc_name() != name@ by {
                assert(Self::spec_at(c.spec_position()) == c);
            }
        }
        None
    }

    /// Each suite sits at its own place: places lie below the count, and the suite at a
    /// suite's place is that suite.
    pub proof fn lemma_positions()
        ensures
            forall|c: Self| 0 <= #[trigger] c.spec_position() < TLS_SUITE_COUNT,
            forall|c: Self| Self::spec_at(#[trigger] c.spec_position()) == c,
    {
        reveal(TLSCipherSuite::spec_at);
    }

    /// The place of the suite at a place is that place, for every place below the count.
    pub proof fn lemma_places()
        ensures
            forall|i: int| 0 <= i < TLS_SUITE_COUNT ==> (#[trigger] Self::spec_at(i)).spec_position() == i,
    {
        reveal(TLSCipherSuite::spec_at);
    }

    /// The enumeration holds every suite, none twice, and each of its suites has a
    /// nonempty OpenSSL spelling and a nonempty RFC identifier.
    pub proof fn lemma_all_suites()
        ensures
            Self::spec_all().len() == TLS_SUITE_COUNT,
            forall|c: Self| Self::spec_all().contains(c),
            Self::spec_all().no_duplicates(),
            forall|i: int| 0 <= i < TLS_SUITE_COUNT ==> (#[trigger] Self::spec_all()[i]).spec_openssl_name().len() > 0
                && Self::spec_all()[i].spec_rfc_name().len() > 0,
    {
        Self::lemma_positions();
        Self::lemma_places();
        Self::lemma_openssl_names_distinct();
        Self::lemma_rfc_names_distinct();
        assert forall|c: Self| Self::spec_all().contains(c) by {
            assert(Self::spec_all()[c.spec_position()] == c);
        }
    }

    /// Every OpenSSL spelling is nonempty, and no two suites share one.
    pub proof fn lemma_openssl_names_distinct()
        ensures
            forall|c: Self| (#[trigger] c.spec_openssl_name()).len() > 0,
            forall|a: Self, b: Self| a.spec_openssl_name() == b.spec_openssl_name() ==> a == b,
    {
        assert forall|a: Self, b: Self|
            a.spec_openssl_name().len() > 0 && (a.spec_openssl_name() == b.spec_openssl_name() ==> a == b) by {
            reveal_strlit("NULL-MD5");
            reveal_strlit("NULL-SHA");
            reveal_strlit("EXP-RC4-MD5");
            reveal_strlit("RC4-MD5");
            reveal_strlit("RC4-SHA");
            reveal_strlit("EXP-RC2-CBC-MD5");
            reveal_strlit("IDEA-CBC-SHA");
            reveal_strlit("EXP-DES-CBC-SHA");
            reveal_strlit("DES-CBC-SHA");
            reveal_strlit("DES-CBC3-SHA");
            reveal_strlit("EXP-DH-DSS-DES-CBC-SHA");
            reveal_strlit("DH-DSS-DES-CBC-SHA");
            reveal_strlit("DH-DSS-DES-CBC3-SHA");
            reveal_strlit("EXP-DH-RSA-DES-CBC-SHA");
            reveal_strlit("DH-RSA-DES-CBC-SHA");
            reveal_strlit("DH-RSA-DES-CBC3-SHA");
            reveal_strlit("EXP-EDH-DSS-DES-CBC-SHA");
            reveal_strlit("EDH-DSS-DES-CBC-SHA");
            reveal_strlit("DHE-DSS-DES-CBC3-SHA");
            reveal_strlit("EXP-EDH-RSA-DES-CBC-SHA");
            reveal_strlit("EDH-RSA-DES-CBC-SHA");
            reveal_strlit("DHE-RSA-DES-CBC3-SHA");
            reveal_strlit("EXP-ADH-RC4-MD5");
            reveal_strlit("ADH-RC4-MD5");
            reveal_strlit("EXP-ADH-DES-CBC-SHA");
            reveal_strlit("ADH-DES-CBC-SHA");
            reveal_strlit("ADH-DES-CBC3-SHA");
            reveal_strlit("KRB5-DES-CBC-SHA");
            reveal_strlit("KRB5-DES-CBC3-SHA");
            reveal_strlit("KRB5-RC4-SHA");
            reveal_strlit("KRB5-IDEA-CBC-SHA");
            reveal_strlit("KRB5-DES-CBC-MD5");
            reveal_strlit("KRB5-DES-CBC3-MD5");
            reveal_strlit("KRB5-RC4-MD5");
            reveal_strlit("KRB5-IDEA-CBC-MD5");
            reveal_strlit("EXP-KRB5-DES-CBC-SHA");
            reveal_strlit("EXP-KRB5-RC2-CBC-SHA");
            reveal_strlit("EXP-KRB5-RC4-SHA");
            reveal_strlit("EXP-KRB5-DES-CBC-MD5");
            reveal_strlit("EXP-KRB5-RC2-CBC-MD5");
            reveal_strlit("EXP-KRB5-RC4-MD5");
            reveal_strlit("PSK-NULL-SHA");
            reveal_strlit("DHE-PSK-NULL-SHA");
            reveal_strlit("RSA-PSK-NULL-SHA");
            reveal_strlit("AES128-SHA");
            reveal_strlit("DH-DSS-AES128-SHA");
            reveal_strlit("DH-RSA-AES128-SHA");
            reveal_strlit("DHE-DSS-AES128-SHA");
            reveal_strlit("DHE-RSA-AES128-SHA");
            reveal_strlit("ADH-AES128-SHA");
            reveal_strlit("AES256-SHA");
            reveal_strlit("DH-DSS-AES256-SHA");
            reveal_strlit("DH-RSA-AES256-SHA");
            reveal_strlit("DHE-DSS-AES256-SHA");
            reveal_strlit("DHE-RSA-AES256-SHA");
            reveal_strlit("ADH-AES256-SHA");
            reveal_strlit("NULL-SHA256");
            reveal_strlit("AES128-SHA256");
            reveal_strlit("AES256-SHA256");
            reveal_strlit("DH-DSS-AES128-SHA256");
            reveal_strlit("DH-RSA-AES128-SHA256");
            reveal_strlit("DHE-DSS-AES128-SHA256");
            reveal_strlit("CAMELLIA128-SHA");
            reveal_strlit("DH-DSS-CAMELLIA128-SHA");
            reveal_strlit("DH-RSA-CAMELLIA128-SHA");
            reveal_strlit("DHE-DSS-CAMELLIA128-SHA");
            reveal_strlit("DHE-RSA-CAMELLIA128-SHA");
            reveal_strlit("ADH-CAMELLIA128-SHA");
            reveal_strlit("EXP1024-RC4-MD5");
            reveal_strlit("EXP1024-RC2-CBC-MD5");
            reveal_strlit("EXP1024-DES-CBC-SHA");
            reveal_strlit("EXP1024-DHE-DSS-DES-CBC-SHA");
            reveal_strlit("EXP1024-RC4-SHA");
            reveal_strlit("EXP1024-DHE-DSS-RC4-SHA");
            reveal_strlit("DHE-DSS-RC4-SHA");
            reveal_strlit("DHE-RSA-AES128-SHA256");
            reveal_strlit("DH-DSS-AES256-SHA256");
            reveal_strlit("DH-RSA-AES256-SHA256");
            reveal_strlit("DHE-DSS-AES256-SHA256");
            reveal_strlit("DHE-RSA-AES256-SHA256");
            reveal_strlit("ADH-AES128-SHA256");
            reveal_strlit("ADH-AES256-SHA256");
            reveal_strlit("GOST94-GOST89-GOST89");
            reveal_strlit("GOST2001-GOST89-GOST89");
            reveal_strlit("GOST94-NULL-GOST94");
            reveal_strlit("GOST2001-NULL-GOST94");
            reveal_strlit("CAMELLIA256-SHA");
            reveal_strlit("DH-DSS-CAMELLIA256-SHA");
            reveal_strlit("DH-RSA-CAMELLIA256-SHA");
            reveal_strlit("DHE-DSS-CAMELLIA256-SHA");
            reveal_strlit("DHE-RSA-CAMELLIA256-SHA");
            reveal_strlit("ADH-CAMELLIA256-SHA");
            reveal_strlit("PSK-RC4-SHA");
            reveal_strlit("PSK-3DES-EDE-CBC-SHA");
            reveal_strlit("PSK-AES128-CBC-SHA");
            reveal_strlit("PSK-AES256-CBC-SHA");
            reveal_strlit("DHE-PSK-RC4-SHA");
            reveal_strlit("DHE-PSK-3DES-EDE-CBC-SHA");
            reveal_strlit("DHE-PSK-AES128-CBC-SHA");
            reveal_strlit("DHE-PSK-AES256-CBC-SHA");
            reveal_strlit("RSA-PSK-RC4-SHA");
            reveal_strlit("RSA-PSK-3DES-EDE-CBC-SHA");
            reveal_strlit("RSA-PSK-AES128-CBC-SHA");
            reveal_strlit("RSA-PSK-AES256-CBC-SHA");
            reveal_strlit("SEED-SHA");
            reveal_strlit("DH-DSS-SEED-SHA");
            reveal_strlit("DH-RSA-SEED-SHA");
            reveal_strlit("DHE-DSS-SEED-SHA");
            reveal_strlit("DHE-RSA-SEED-SHA");
            reveal_strlit("ADH-SEED-SHA");
            reveal_strlit("AES128-GCM-SHA256");
            reveal_strlit("AES256-GCM-SHA384");
            reveal_strlit("DHE-RSA-AES128-GCM-SHA256");
            reveal_strlit("DHE-RSA-AES256-GCM-SHA384");
            reveal_strlit("DH-RSA-AES128-GCM-SHA256");
            reveal_strlit("DH-RSA-AES256-GCM-SHA384");
            reveal_strlit("DHE-DSS-AES128-GCM-SHA256");
            reveal_strlit("DHE-DSS-AES256-GCM-SHA384");
            reveal_strlit("DH-DSS-AES128-GCM-SHA256");
            reveal_strlit("DH-DSS-AES256-GCM-SHA384");
            reveal_strlit("ADH-AES128-GCM-SHA256");
            reveal_strlit("ADH-AES256-GCM-SHA384");
            reveal_strlit("PSK-AES128-GCM-SHA256");
            reveal_strlit("PSK-AES256-GCM-SHA384");
            reveal_strlit("DHE-PSK-AES128-GCM-SHA256");
            reveal_strlit("DHE-PSK-AES256-GCM-SHA384");
            reveal_strlit("RSA-PSK-AES128-GCM-SHA256");
            reveal_strlit("RSA-PSK-AES256-GCM-SHA384");
            reveal_strlit("PSK-AES128-CBC-SHA256");
            reveal_strlit("PSK-AES256-CBC-SHA384");
            reveal_strlit("PSK-NULL-SHA256");
            reveal_strlit("PSK-NULL-SHA384");
            reveal_strlit("DHE-PSK-AES128-CBC-SHA256");
            reveal_strlit("DHE-PSK-AES256-CBC-SHA384");
            reveal_strlit("DHE-PSK-NULL-SHA256");
            reveal_strlit("DHE-PSK-NULL-SHA384");
            reveal_strlit("RSA-PSK-AES128-CBC-SHA256");
            reveal_strlit("RSA-PSK-AES256-CBC-SHA384");
            reveal_strlit("RSA-PSK-NULL-SHA256");
            reveal_strlit("RSA-PSK-NULL-SHA384");
            reveal_strlit("CAMELLIA128-SHA256");
            reveal_strlit("DH-DSS-CAMELLIA128-SHA256");
            reveal_strlit("DH-RSA-CAMELLIA128-SHA256");
            reveal_strlit("DHE-DSS-CAMELLIA128-SHA256");
            reveal_strlit("DHE-RSA-CAMELLIA128-SHA256");
            reveal_strlit("ADH-CAMELLIA128-SHA256");
            reveal_strlit("CAMELLIA256-SHA256");
            reveal_strlit("DH-DSS-CAMELLIA256-SHA256");
            reveal_strlit("DH-RSA-CAMELLIA256-SHA256");
            reveal_strlit("DHE-DSS-CAMELLIA256-SHA256");
            reveal_strlit("DHE-RSA-CAMELLIA256-SHA256");
            reveal_strlit("ADH-CAMELLIA256-SHA256");
            reveal_strlit("TLS_AES_128_GCM_SHA256");
            reveal_strlit("TLS_AES_256_GCM_SHA384");
            reveal_strlit("TLS_CHACHA20_POLY1305_SHA256");
            reveal_strlit("TLS_AES_128_CCM_SHA256");
            reveal_strlit("TLS_AES_128_CCM_8_SHA256");
            reveal_strlit("ECDH-ECDSA-NULL-SHA");
            reveal_strlit("ECDH-ECDSA-RC4-SHA");
            reveal_strlit("ECDH-ECDSA-DES-CBC3-SHA");
            reveal_strlit("ECDH-ECDSA-AES128-SHA");
            reveal_strlit("ECDH-ECDSA-AES256-SHA");
            reveal_strlit("ECDHE-ECDSA-NULL-SHA");
            reveal_strlit("ECDHE-ECDSA-RC4-SHA");
            reveal_strlit("ECDHE-ECDSA-DES-CBC3-SHA");
            reveal_strlit("ECDHE-ECDSA-AES128-SHA");
            reveal_strlit("ECDHE-ECDSA-AES256-SHA");
            reveal_strlit("ECDH-RSA-NULL-SHA");
            reveal_strlit("ECDH-RSA-RC4-SHA");
            reveal_strlit("ECDH-RSA-DES-CBC3-SHA");
            reveal_strlit("ECDH-RSA-AES128-SHA");
            reveal_strlit("ECDH-RSA-AES256-SHA");
            reveal_strlit("ECDHE-RSA-NULL-SHA");
            reveal_strlit("ECDHE-RSA-RC4-SHA");
            reveal_strlit("ECDHE-RSA-DES-CBC3-SHA");
            reveal_strlit("ECDHE-RSA-AES128-SHA");
            reveal_strlit("ECDHE-RSA-AES256-SHA");
            reveal_strlit("AECDH-NULL-SHA");
            reveal_strlit("AECDH-RC4-SHA");
            reveal_strlit("AECDH-DES-CBC3-SHA");
            reveal_strlit("AECDH-AES128-SHA");
            reveal_strlit("AECDH-AES256-SHA");
            reveal_strlit("SRP-3DES-EDE-CBC-SHA");
            reveal_strlit("SRP-RSA-3DES-EDE-CBC-SHA");
            reveal_strlit("SRP-DSS-3DES-EDE-CBC-SHA");
            reveal_strlit("SRP-AES-128-CBC-SHA");
            reveal_strlit("SRP-RSA-AES-128-CBC-SHA");
            reveal_strlit("SRP-DSS-AES-128-CBC-SHA");
            reveal_strlit("SRP-AES-256-CBC-SHA");
            reveal_strlit("SRP-RSA-AES-256-CBC-SHA");
            reveal_strlit("SRP-DSS-AES-256-CBC-SHA");
            reveal_strlit("ECDHE-ECDSA-AES128-SHA256");
            reveal_strlit("ECDHE-ECDSA-AES256-SHA384");
            reveal_strlit("ECDH-ECDSA-AES128-SHA256");
            reveal_strlit("ECDH-ECDSA-AES256-SHA384");
            reveal_strlit("ECDHE-RSA-AES128-SHA256");
            reveal_strlit("ECDHE-RSA-AES256-SHA384");
            reveal_strlit("ECDH-RSA-AES128-SHA256");
            reveal_strlit("ECDH-RSA-AES256-SHA384");
            reveal_strlit("ECDHE-ECDSA-AES128-GCM-SHA256");
            reveal_strlit("ECDHE-ECDSA-AES256-GCM-SHA384");
            reveal_strlit("ECDH-ECDSA-AES128-GCM-SHA256");
            reveal_strlit("ECDH-ECDSA-AES256-GCM-SHA384");
            reveal_strlit("ECDHE-RSA-AES128-GCM-SHA256");
            reveal_strlit("ECDHE-RSA-AES256-GCM-SHA384");
            reveal_strlit("ECDH-RSA-AES128-GCM-SHA256");
            reveal_strlit("ECDH-RSA-AES256-GCM-SHA384");
            reveal_strlit("ECDHE-PSK-RC4-SHA");
            reveal_strlit("ECDHE-PSK-3DES-EDE-CBC-SHA");
            reveal_strlit("ECDHE-PSK-AES128-CBC-SHA");
            reveal_strlit("ECDHE-PSK-AES256-CBC-SHA");
            reveal_strlit("ECDHE-PSK-AES128-CBC-SHA256");
            reveal_strlit("ECDHE-PSK-AES256-CBC-SHA384");
            reveal_strlit("ECDHE-PSK-NULL-SHA");
            reveal_strlit("ECDHE-PSK-NULL-SHA256");
            reveal_strlit("ECDHE-PSK-NULL-SHA384");
            reveal_strlit("ARIA128-GCM-SHA256");
            reveal_strlit("ARIA256-GCM-SHA384");
            reveal_strlit("DHE-RSA-ARIA128-GCM-SHA256");
            reveal_strlit("DHE-RSA-ARIA256-GCM-SHA384");
            reveal_strlit("DHE-DSS-ARIA128-GCM-SHA256");
            reveal_strlit("DHE-DSS-ARIA256-GCM-SHA384");
            reveal_strlit("ECDHE-ECDSA-ARIA128-GCM-SHA256");
            reveal_strlit("ECDHE-ECDSA-ARIA256-GCM-SHA384");
            reveal_strlit("ECDHE-ARIA128-GCM-SHA256");
            reveal_strlit("ECDHE-ARIA256-GCM-SHA384");
            reveal_strlit("PSK-ARIA128-GCM-SHA256");
            reveal_strlit("PSK-ARIA256-GCM-SHA384");
            reveal_strlit("DHE-PSK-ARIA128-GCM-SHA256");
            reveal_strlit("DHE-PSK-ARIA256-GCM-SHA384");
            reveal_strlit("RSA-PSK-ARIA128-GCM-SHA256");
            reveal_strlit("RSA-PSK-ARIA256-GCM-SHA384");
            reveal_strlit("ECDHE-ECDSA-CAMELLIA128-SHA256");
            reveal_strlit("ECDHE-ECDSA-CAMELLIA256-SHA384");
            reveal_strlit("ECDH-ECDSA-CAMELLIA128-SHA256");
            reveal_strlit("ECDH-ECDSA-CAMELLIA256-SHA384");
            reveal_strlit("ECDHE-RSA-CAMELLIA128-SHA256");
            reveal_strlit("ECDHE-RSA-CAMELLIA256-SHA384");
            reveal_strlit("ECDH-RSA-CAMELLIA128-SHA256");
            reveal_strlit("ECDH-RSA-CAMELLIA256-SHA384");
            reveal_strlit("PSK-CAMELLIA128-SHA256");
            reveal_strlit("PSK-CAMELLIA256-SHA384");
            reveal_strlit("DHE-PSK-CAMELLIA128-SHA256");
            reveal_strlit("DHE-PSK-CAMELLIA256-SHA384");
            reveal_strlit("RSA-PSK-CAMELLIA128-SHA256");
            reveal_strlit("RSA-PSK-CAMELLIA256-SHA384");
            reveal_strlit("ECDHE-PSK-CAMELLIA128-SHA256");
            reveal_strlit("ECDHE-PSK-CAMELLIA256-SHA384");
            reveal_strlit("AES128-CCM");
            reveal_strlit("AES256-CCM");
            reveal_strlit("DHE-RSA-AES128-CCM");
            reveal_strlit("DHE-RSA-AES256-CCM");
            reveal_strlit("AES128-CCM8");
            reveal_strlit("AES256-CCM8");
            reveal_strlit("DHE-RSA-AES128-CCM8");
            reveal_strlit("DHE-RSA-AES256-CCM8");
            reveal_strlit("PSK-AES128-CCM");
            reveal_strlit("PSK-AES256-CCM");
            reveal_strlit("DHE-PSK-AES128-CCM");
            reveal_strlit("DHE-PSK-AES256-CCM");
            reveal_strlit("PSK-AES128-CCM8");
            reveal_strlit("PSK-AES256-CCM8");
            reveal_strlit("DHE-PSK-AES128-CCM8");
            reveal_strlit("DHE-PSK-AES256-CCM8");
            reveal_strlit("ECDHE-ECDSA-AES128-CCM");
            reveal_strlit("ECDHE-ECDSA-AES256-CCM");
            reveal_strlit("ECDHE-ECDSA-AES128-CCM8");
            reveal_strlit("ECDHE-ECDSA-AES256-CCM8");
            reveal_strlit("ECDHE-RSA-CHACHA20-POLY1305-OLD");
            reveal_strlit("ECDHE-ECDSA-CHACHA20-POLY1305-OLD");
            reveal_strlit("DHE-RSA-CHACHA20-POLY1305-OLD");
            reveal_strlit("ECDHE-RSA-CHACHA20-POLY1305");
            reveal_strlit("ECDHE-ECDSA-CHACHA20-POLY1305");
            reveal_strlit("DHE-RSA-CHACHA20-POLY1305");
            reveal_strlit("PSK-CHACHA20-POLY1305");
            reveal_strlit("ECDHE-PSK-CHACHA20-POLY1305");
            reveal_strlit("DHE-PSK-CHACHA20-POLY1305");
            reveal_strlit("RSA-PSK-CHACHA20-POLY1305");
            let s = a.spec_openssl_name();
            if s == b.spec_openssl_name() {
                // Naming each place lets the solver compare the two literals
                // character by character.
                assert(s.len() == b.spec_openssl_name().len());
                assert(s[0] == b.spec_openssl_name()[0]);
                assert(s[1] == b.spec_openssl_name()[1]);
                assert(s[2] == b.spec_openssl_name()[2]);
                assert(s[3] == b.spec_openssl_name()[3]);
                assert(s[4] == b.spec_openssl_name()[4]);
                assert(s[5] == b.spec_openssl_name()[5]);
                assert(s[6] == b.spec_openssl_name()[6]);
                assert(s[7] == b.spec_openssl_name()[7]);
                assert(s[8] == b.spec_openssl_name()[8]);
                assert(s[9] == b.spec_openssl_name()[9]);
                assert(s[10] == b.spec_openssl_name()[10]);
                assert(s[11] == b.spec_openssl_name()[11]);
                assert(s[12] == b.spec_openssl_name()[12]);
                assert(s[13] == b.spec_openssl_name()[13]);
                assert(s[14] == b.spec_openssl_name()[14]);
                assert(s[15] == b.spec_openssl_name()[15]);
                assert(s[16] == b.spec_openssl_name()[16]);
                assert(s[17] == b.spec_openssl_name()[17]);
                assert(s[18] == b.spec_openssl_name()[18]);
                assert(s[19] == b.spec_openssl_name()[19]);
                assert(s[20] == b.spec_openssl_name()[20]);
                assert(s[21] == b.spec_openssl_name()[21]);
                assert(s[22] == b.spec_openssl_name()[22]);
                assert(s[23] == b.spec_openssl_name()[23]);
                assert(s[24] == b.spec_openssl_name()[24]);
                assert(s[25] == b.spec_openssl_name()[25]);
                assert(s[26] == b.spec_openssl_name()[26]);
                assert(s[27] == b.spec_openssl_name()[27]);
                assert(s[28] == b.spec_openssl_name()[28]);
                assert(s[29] == b.spec_openssl_name()[29]);
                assert(s[30] == b.spec_openssl_name()[30]);
                assert(s[31] == b.spec_openssl_name()[31]);
                assert(s[32] == b.spec_openssl_name()[32]);
            }
        }
        assert forall|c: Self| (#[trigger] c.spec_openssl_name()).len() > 0 by {
            assert(c.spec_openssl_name().len() > 0 && (c.spec_openssl_name() == c.spec_openssl_name() ==> c == c));
        }
    }

    /// Looking up the OpenSSL spelling of a suite gives that suite back.
    pub proof fn lemma_openssl_round_trip(c: Self)
        ensures
            Self::spec_from_openssl_name(c.spec_openssl_name()) == Some(c),
    {
        Self::lemma_openssl_names_distinct();
    }

    /// Every RFC identifier is nonempty, and no two suites share one.
    pub proof fn lemma_rfc_names_distinct()
        ensures
            forall|c: Self| (#[trigger] c.spec_rfc_name()).len() > 0,
            forall|a: Self, b: Self| a.spec_rfc_name() == b.spec_rfc_name() ==> a == b,
    {
        assert forall|a: Self, b: Self|
            a.spec_rfc_name().len() > 0 && (a.spec_rfc_name() == b.spec_rfc_name() ==> a == b) by {
            reveal_strlit("TLS_RSA_WITH_NULL_MD5");
            reveal_strlit("TLS_RSA_WITH_NULL_SHA");
            reveal_strlit("TLS_RSA_EXPORT_WITH_RC4_40_MD5");
            reveal_strlit("TLS_RSA_WITH_RC4_128_MD5");
            reveal_strlit("TLS_RSA_WITH_RC4_128_SHA");
            reveal_strlit("TLS_RSA_EXPORT_WITH_RC2_CBC_40_MD5");
            reveal_strlit("TLS_RSA_WITH_IDEA_CBC_SHA");
            reveal_strlit("TLS_RSA_EXPORT_WITH_DES40_CBC_SHA");
            reveal_strlit("TLS_RSA_WITH_DES_CBC_SHA");
            reveal_strlit("TLS_RSA_WITH_3DES_EDE_CBC_SHA");
            reveal_strlit("TLS_DH_DSS_EXPORT_WITH_DES40_CBC_SHA");
            reveal_strlit("TLS_DH_DSS_WITH_DES_CBC_SHA");
            reveal_strlit("TLS_DH_DSS_WITH_3DES_EDE_CBC_SHA");
            reveal_strlit("TLS_DH_RSA_EXPORT_WITH_DES40_CBC_SHA");
            reveal_strlit("TLS_DH_RSA_WITH_DES_CBC_SHA");
            reveal_strlit("TLS_DH_RSA_WITH_3DES_EDE_CBC_SHA");
            reveal_strlit("TLS_DHE_DSS_EXPORT_WITH_DES40_CBC_SHA");
            reveal_strlit("TLS_DHE_DSS_WITH_DES_CBC_SHA");
            reveal_strlit("TLS_DHE_DSS_WITH_3DES_EDE_CBC_SHA");
            reveal_strlit("TLS_DHE_RSA_EXPORT_WITH_DES40_CBC_SHA");
            reveal_strlit("TLS_DHE_RSA_WITH_DES_CBC_SHA");
            reveal_strlit("TLS_DHE_RSA_WITH_3DES_EDE_CBC_SHA");
            reveal_strlit("TLS_DH_anon_EXPORT_WITH_RC4_40_MD5");
            reveal_strlit("TLS_DH_anon_WITH_RC4_128_MD5");
            reveal_strlit("TLS_DH_anon_EXPORT_WITH_DES40_CBC_SHA");
            reveal_strlit("TLS_DH_anon_WITH_DES_CBC_SHA");
            reveal_strlit("TLS_DH_anon_WITH_3DES_EDE_CBC_SHA");
            reveal_strlit("TLS_KRB5_WITH_DES_CBC_SHA");
            reveal_strlit("TLS_KRB5_WITH_3DES_EDE_CBC_SHA");
            reveal_strlit("TLS_KRB5_WITH_RC4_128_SHA");
            reveal_strlit("TLS_KRB5_WITH_IDEA_CBC_SHA");
            reveal_strlit("TLS_KRB5_WITH_DES_CBC_MD5");
            reveal_strlit("TLS_KRB5_WITH_3DES_EDE_CBC_MD5");
            reveal_strlit("TLS_KRB5_WITH_RC4_128_MD5");
            reveal_strlit("TLS_KRB5_WITH_IDEA_CBC_MD5");
            reveal_strlit("TLS_KRB5_EXPORT_WITH_DES_CBC_40_SHA");
            reveal_strlit("TLS_KRB5_EXPORT_WITH_RC2_CBC_40_SHA");
            reveal_strlit("TLS_KRB5_EXPORT_WITH_RC4_40_SHA");
            reveal_strlit("TLS_KRB5_EXPORT_WITH_DES_CBC_40_MD5");
            reveal_strlit("TLS_KRB5_EXPORT_WITH_RC2_CBC_40_MD5");
            reveal_strlit("TLS_KRB5_EXPORT_WITH_RC4_40_MD5");
            reveal_strlit("TLS_PSK_WITH_NULL_SHA");
            reveal_strlit("TLS_DHE_PSK_WITH_NULL_SHA");
            reveal_strlit("TLS_RSA_PSK_WITH_NULL_SHA");
            reveal_strlit("TLS_RSA_WITH_AES_128_CBC_SHA");
            reveal_strlit("TLS_DH_DSS_WITH_AES_128_CBC_SHA");
            reveal_strlit("TLS_DH_RSA_WITH_AES_128_CBC_SHA");
            reveal_strlit("TLS_DHE_DSS_WITH_AES_128_CBC_SHA");
            reveal_strlit("TLS_DHE_RSA_WITH_AES_128_CBC_SHA");
            reveal_strlit("TLS_DH_anon_WITH_AES_128_CBC_SHA");
            reveal_strlit("TLS_RSA_WITH_AES_256_CBC_SHA");
            reveal_strlit("TLS_DH_DSS_WITH_AES_256_CBC_SHA");
            reveal_strlit("TLS_DH_RSA_WITH_AES_256_CBC_SHA");
            reveal_strlit("TLS_DHE_DSS_WITH_AES_256_CBC_SHA");
            reveal_strlit("TLS_DHE_RSA_WITH_AES_256_CBC_SHA");
            reveal_strlit("TLS_DH_anon_WITH_AES_256_CBC_SHA");
            reveal_strlit("TLS_RSA_WITH_NULL_SHA256");
            reveal_strlit("TLS_RSA_WITH_AES_128_CBC_SHA256");
            reveal_strlit("TLS_RSA_WITH_AES_256_CBC_SHA256");
            reveal_strlit("TLS_DH_DSS_WITH_AES_128_CBC_SHA256");
            reveal_strlit("TLS_DH_RSA_WITH_AES_128_CBC_SHA256");
            reveal_strlit("TLS_DHE_DSS_WITH_AES_128_CBC_SHA256");
            reveal_strlit("TLS_RSA_WITH_CAMELLIA_128_CBC_SHA");
            reveal_strlit("TLS_DH_DSS_WITH_CAMELLIA_128_CBC_SHA");
            reveal_strlit("TLS_DH_RSA_WITH_CAMELLIA_128_CBC_SHA");
            reveal_strlit("TLS_DHE_DSS_WITH_CAMELLIA_128_CBC_SHA");
            reveal_strlit("TLS_DHE_RSA_WITH_CAMELLIA_128_CBC_SHA");
            reveal_strlit("TLS_DH_anon_WITH_CAMELLIA_128_CBC_SHA");
            reveal_strlit("TLS_RSA_EXPORT1024_WITH_RC4_56_MD5");
            reveal_strlit("TLS_RSA_EXPORT1024_WITH_RC2_CBC_56_MD5");
            reveal_strlit("TLS_RSA_EXPORT1024_WITH_DES_CBC_SHA");
            reveal_strlit("TLS_DHE_DSS_EXPORT1024_WITH_DES_CBC_SHA");
            reveal_strlit("TLS_RSA_EXPORT1024_WITH_RC4_56_SHA");
            reveal_strlit("TLS_DHE_DSS_EXPORT1024_WITH_RC4_56_SHA");
            reveal_strlit("TLS_DHE_DSS_WITH_RC4_128_SHA");
            reveal_strlit("TLS_DHE_RSA_WITH_AES_128_CBC_SHA256");
            reveal_strlit("TLS_DH_DSS_WITH_AES_256_CBC_SHA256");
            reveal_strlit("TLS_DH_RSA_WITH_AES_256_CBC_SHA256");
            reveal_strlit("TLS_DHE_DSS_WITH_AES_256_CBC_SHA256");
            reveal_strlit("TLS_DHE_RSA_WITH_AES_256_CBC_SHA256");
            reveal_strlit("TLS_DH_anon_WITH_AES_128_CBC_SHA256");
            reveal_strlit("TLS_DH_anon_WITH_AES_256_CBC_SHA256");
            reveal_strlit("TLS_GOSTR341094_WITH_28147_CNT_IMIT");
            reveal_strlit("TLS_GOSTR341001_WITH_28147_CNT_IMIT");
            reveal_strlit("TLS_GOSTR341094_WITH_NULL_GOSTR3411");
            reveal_strlit("TLS_GOSTR341001_WITH_NULL_GOSTR3411");
            reveal_strlit("TLS_RSA_WITH_CAMELLIA_256_CBC_SHA");
            reveal_strlit("TLS_DH_DSS_WITH_CAMELLIA_256_CBC_SHA");
            reveal_strlit("TLS_DH_RSA_WITH_CAMELLIA_256_CBC_SHA");
            reveal_strlit("TLS_DHE_DSS_WITH_CAMELLIA_256_CBC_SHA");
            reveal_strlit("TLS_DHE_RSA_WITH_CAMELLIA_256_CBC_SHA");
            reveal_strlit("TLS_DH_anon_WITH_CAMELLIA_256_CBC_SHA");
            reveal_strlit("TLS_PSK_WITH_RC4_128_SHA");
            reveal_strlit("TLS_PSK_WITH_3DES_EDE_CBC_SHA");
            reveal_strlit("TLS_PSK_WITH_AES_128_CBC_SHA");
            reveal_strlit("TLS_PSK_WITH_AES_256_CBC_SHA");
            reveal_strlit("TLS_DHE_PSK_WITH_RC4_128_SHA");
            reveal_strlit("TLS_DHE_PSK_WITH_3DES_EDE_CBC_SHA");
            reveal_strlit("TLS_DHE_PSK_WITH_AES_128_CBC_SHA");
            reveal_strlit("TLS_DHE_PSK_WITH_AES_256_CBC_SHA");
            reveal_strlit("TLS_RSA_PSK_WITH_RC4_128_SHA");
            reveal_strlit("TLS_RSA_PSK_WITH_3DES_EDE_CBC_SHA");
            reveal_strlit("TLS_RSA_PSK_WITH_AES_128_CBC_SHA");
            reveal_strlit("TLS_RSA_PSK_WITH_AES_256_CBC_SHA");
            reveal_strlit("TLS_RSA_WITH_SEED_CBC_SHA");
            reveal_strlit("TLS_DH_DSS_WITH_SEED_CBC_SHA");
            reveal_strlit("TLS_DH_RSA_WITH_SEED_CBC_SHA");
            reveal_strlit("TLS_DHE_DSS_WITH_SEED_CBC_SHA");
            reveal_strlit("TLS_DHE_RSA_WITH_SEED_CBC_SHA");
            reveal_strlit("TLS_DH_anon_WITH_SEED_CBC_SHA");
            reveal_strlit("TLS_RSA_WITH_AES_128_GCM_SHA256");
            reveal_strlit("TLS_RSA_WITH_AES_256_GCM_SHA384");
            reveal_strlit("TLS_DHE_RSA_WITH_AES_128_GCM_SHA256");
            reveal_strlit("TLS_DHE_RSA_WITH_AES_256_GCM_SHA384");
            reveal_strlit("TLS_DH_RSA_WITH_AES_128_GCM_SHA256");
            reveal_strlit("TLS_DH_RSA_WITH_AES_256_GCM_SHA384");
            reveal_strlit("TLS_DHE_DSS_WITH_AES_128_GCM_SHA256");
            reveal_strlit("TLS_DHE_DSS_WITH_AES_256_GCM_SHA384");
            reveal_strlit("TLS_DH_DSS_WITH_AES_128_GCM_SHA256");
            reveal_strlit("TLS_DH_DSS_WITH_AES_256_GCM_SHA384");
            reveal_strlit("TLS_DH_anon_WITH_AES_128_GCM_SHA256");
            reveal_strlit("TLS_DH_anon_WITH_AES_256_GCM_SHA384");
            reveal_strlit("TLS_PSK_WITH_AES_128_GCM_SHA256");
            reveal_strlit("TLS_PSK_WITH_AES_256_GCM_SHA384");
            reveal_strlit("TLS_DHE_PSK_WITH_AES_128_GCM_SHA256");
            reveal_strlit("TLS_DHE_PSK_WITH_AES_256_GCM_SHA384");
            reveal_strlit("TLS_RSA_PSK_WITH_AES_128_GCM_SHA256");
            reveal_strlit("TLS_RSA_PSK_WITH_AES_256_GCM_SHA384");
            reveal_strlit("TLS_PSK_WITH_AES_128_CBC_SHA256");
            reveal_strlit("TLS_PSK_WITH_AES_256_CBC_SHA384");
            reveal_strlit("TLS_PSK_WITH_NULL_SHA256");
            reveal_strlit("TLS_PSK_WITH_NULL_SHA384");
            reveal_strlit("TLS_DHE_PSK_WITH_AES_128_CBC_SHA256");
            reveal_strlit("TLS_DHE_PSK_WITH_AES_256_CBC_SHA384");
            reveal_strlit("TLS_DHE_PSK_WITH_NULL_SHA256");
            reveal_strlit("TLS_DHE_PSK_WITH_NULL_SHA384");
            reveal_strlit("TLS_RSA_PSK_WITH_AES_128_CBC_SHA256");
            reveal_strlit("TLS_RSA_PSK_WITH_AES_256_CBC_SHA384");
            reveal_strlit("TLS_RSA_PSK_WITH_NULL_SHA256");
            reveal_strlit("TLS_RSA_PSK_WITH_NULL_SHA384");
            reveal_strlit("TLS_RSA_WITH_CAMELLIA_128_CBC_SHA256");
            reveal_strlit("TLS_DH_DSS_WITH_CAMELLIA_128_CBC_SHA256");
            reveal_strlit("TLS_DH_RSA_WITH_CAMELLIA_128_CBC_SHA256");
            reveal_strlit("TLS_DHE_DSS_WITH_CAMELLIA_128_CBC_SHA256");
            reveal_strlit("TLS_DHE_RSA_WITH_CAMELLIA_128_CBC_SHA256");
            reveal_strlit("TLS_DH_anon_WITH_CAMELLIA_128_CBC_SHA256");
            reveal_strlit("TLS_RSA_WITH_CAMELLIA_256_CBC_SHA256");
            reveal_strlit("TLS_DH_DSS_WITH_CAMELLIA_256_CBC_SHA256");
            reveal_strlit("TLS_DH_RSA_WITH_CAMELLIA_256_CBC_SHA256");
            reveal_strlit("TLS_DHE_DSS_WITH_CAMELLIA_256_CBC_SHA256");
            reveal_strlit("TLS_DHE_RSA_WITH_CAMELLIA_256_CBC_SHA256");
            reveal_strlit("TLS_DH_anon_WITH_CAMELLIA_256_CBC_SHA256");
            reveal_strlit("TLS_AES_128_GCM_SHA256");
            reveal_strlit("TLS_AES_256_GCM_SHA384");
            reveal_strlit("TLS_CHACHA20_POLY1305_SHA256");
            reveal_strlit("TLS_AES_128_CCM_SHA256");
            reveal_strlit("TLS_AES_128_CCM_8_SHA256");
            reveal_strlit("TLS_ECDH_ECDSA_WITH_NULL_SHA");
            reveal_strlit("TLS_ECDH_ECDSA_WITH_RC4_128_SHA");
            reveal_strlit("TLS_ECDH_ECDSA_WITH_3DES_EDE_CBC_SHA");
            reveal_strlit("TLS_ECDH_ECDSA_WITH_AES_128_CBC_SHA");
            reveal_strlit("TLS_ECDH_ECDSA_WITH_AES_256_CBC_SHA");
            reveal_strlit("TLS_ECDHE_ECDSA_WITH_NULL_SHA");
            reveal_strlit("TLS_ECDHE_ECDSA_WITH_RC4_128_SHA");
            reveal_strlit("TLS_ECDHE_ECDSA_WITH_3DES_EDE_CBC_SHA");
            reveal_strlit("TLS_ECDHE_ECDSA_WITH_AES_128_CBC_SHA");
            reveal_strlit("TLS_ECDHE_ECDSA_WITH_AES_256_CBC_SHA");
            reveal_strlit("TLS_ECDH_RSA_WITH_NULL_SHA");
            reveal_strlit("TLS_ECDH_RSA_WITH_RC4_128_SHA");
            reveal_strlit("TLS_ECDH_RSA_WITH_3DES_EDE_CBC_SHA");
            reveal_strlit("TLS_ECDH_RSA_WITH_AES_128_CBC_SHA");
            reveal_strlit("TLS_ECDH_RSA_WITH_AES_256_CBC_SHA");
            reveal_strlit("TLS_ECDHE_RSA_WITH_NULL_SHA");
            reveal_strlit("TLS_ECDHE_RSA_WITH_RC4_128_SHA");
            reveal_strlit("TLS_ECDHE_RSA_WITH_3DES_EDE_CBC_SHA");
            reveal_strlit("TLS_ECDHE_RSA_WITH_AES_128_CBC_SHA");
            reveal_strlit("TLS_ECDHE_RSA_WITH_AES_256_CBC_SHA");
            reveal_strlit("TLS_ECDH_anon_WITH_NULL_SHA");
            reveal_strlit("TLS_ECDH_anon_WITH_RC4_128_SHA");
            reveal_strlit("TLS_ECDH_anon_WITH_3DES_EDE_CBC_SHA");
            reveal_strlit("TLS_ECDH_anon_WITH_AES_128_CBC_SHA");
            reveal_strlit("TLS_ECDH_anon_WITH_AES_256_CBC_SHA");
            reveal_strlit("TLS_SRP_SHA_WITH_3DES_EDE_CBC_SHA");
            reveal_strlit("TLS_SRP_SHA_RSA_WITH_3DES_EDE_CBC_SHA");
            reveal_strlit("TLS_SRP_SHA_DSS_WITH_3DES_EDE_CBC_SHA");
            reveal_strlit("TLS_SRP_SHA_WITH_AES_128_CBC_SHA");
            reveal_strlit("TLS_SRP_SHA_RSA_WITH_AES_128_CBC_SHA");
            reveal_strlit("TLS_SRP_SHA_DSS_WITH_AES_128_CBC_SHA");
            reveal_strlit("TLS_SRP_SHA_WITH_AES_256_CBC_SHA");
            reveal_strlit("TLS_SRP_SHA_RSA_WITH_AES_256_CBC_SHA");
            reveal_strlit("TLS_SRP_SHA_DSS_WITH_AES_256_CBC_SHA");
            reveal_strlit("TLS_ECDHE_ECDSA_WITH_AES_128_CBC_SHA256");
            reveal_strlit("TLS_ECDHE_ECDSA_WITH_AES_256_CBC_SHA384");
            reveal_strlit("TLS_ECDH_ECDSA_WITH_AES_128_CBC_SHA256");
            reveal_strlit("TLS_ECDH_ECDSA_WITH_AES_256_CBC_SHA384");
            reveal_strlit("TLS_ECDHE_RSA_WITH_AES_128_CBC_SHA256");
            reveal_strlit("TLS_ECDHE_RSA_WITH_AES_256_CBC_SHA384");
            reveal_strlit("TLS_ECDH_RSA_WITH_AES_128_CBC_SHA256");
            reveal_strlit("TLS_ECDH_RSA_WITH_AES_256_CBC_SHA384");
            reveal_strlit("TLS_ECDHE_ECDSA_WITH_AES_128_GCM_SHA256");
            reveal_strlit("TLS_ECDHE_ECDSA_WITH_AES_256_GCM_SHA384");
            reveal_strlit("TLS_ECDH_ECDSA_WITH_AES_128_GCM_SHA256");
            reveal_strlit("TLS_ECDH_ECDSA_WITH_AES_256_GCM_SHA384");
            reveal_strlit("TLS_ECDHE_RSA_WITH_AES_128_GCM_SHA256");
            reveal_strlit("TLS_ECDHE_RSA_WITH_AES_256_GCM_SHA384");
            reveal_strlit("TLS_ECDH_RSA_WITH_AES_128_GCM_SHA256");
            reveal_strlit("TLS_ECDH_RSA_WITH_AES_256_GCM_SHA384");
            reveal_strlit("TLS_ECDHE_PSK_WITH_RC4_128_SHA");
            reveal_strlit("TLS_ECDHE_PSK_WITH_3DES_EDE_CBC_SHA");
            reveal_strlit("TLS_ECDHE_PSK_WITH_AES_128_CBC_SHA");
            reveal_strlit("TLS_ECDHE_PSK_WITH_AES_256_CBC_SHA");
            reveal_strlit("TLS_ECDHE_PSK_WITH_AES_128_CBC_SHA256");
            reveal_strlit("TLS_ECDHE_PSK_WITH_AES_256_CBC_SHA384");
            reveal_strlit("TLS_ECDHE_PSK_WITH_NULL_SHA");
            reveal_strlit("TLS_ECDHE_PSK_WITH_NULL_SHA256");
            reveal_strlit("TLS_ECDHE_PSK_WITH_NULL_SHA384");
            reveal_strlit("TLS_RSA_WITH_ARIA_128_GCM_SHA256");
            reveal_strlit("TLS_RSA_WITH_ARIA_256_GCM_SHA384");
            reveal_strlit("TLS_DHE_RSA_WITH_ARIA_128_GCM_SHA256");
            reveal_strlit("TLS_DHE_RSA_WITH_ARIA_256_GCM_SHA384");
            reveal_strlit("TLS_DHE_DSS_WITH_ARIA_128_GCM_SHA256");
            reveal_strlit("TLS_DHE_DSS_WITH_ARIA_256_GCM_SHA384");
            reveal_strlit("TLS_ECDHE_ECDSA_WITH_ARIA_128_GCM_SHA256");
            reveal_strlit("TLS_ECDHE_ECDSA_WITH_ARIA_256_GCM_SHA384");
            reveal_strlit("TLS_ECDHE_RSA_WITH_ARIA_128_GCM_SHA256");
            reveal_strlit("TLS_ECDHE_RSA_WITH_ARIA_256_GCM_SHA384");
            reveal_strlit("TLS_PSK_WITH_ARIA_128_GCM_SHA256");
            reveal_strlit("TLS_PSK_WITH_ARIA_256_GCM_SHA384");
            reveal_strlit("TLS_DHE_PSK_WITH_ARIA_128_GCM_SHA256");
            reveal_strlit("TLS_DHE_PSK_WITH_ARIA_256_GCM_SHA384");
            reveal_strlit("TLS_RSA_PSK_WITH_ARIA_128_GCM_SHA256");
            reveal_strlit("TLS_RSA_PSK_WITH_ARIA_256_GCM_SHA384");
            reveal_strlit("TLS_ECDHE_ECDSA_WITH_CAMELLIA_128_CBC_SHA256");
            reveal_strlit("TLS_ECDHE_ECDSA_WITH_CAMELLIA_256_CBC_SHA384");
            reveal_strlit("TLS_ECDH_ECDSA_WITH_CAMELLIA_128_CBC_SHA256");
            reveal_strlit("TLS_ECDH_ECDSA_WITH_CAMELLIA_256_CBC_SHA384");
            reveal_strlit("TLS_ECDHE_RSA_WITH_CAMELLIA_128_CBC_SHA256");
            reveal_strlit("TLS_ECDHE_RSA_WITH_CAMELLIA_256_CBC_SHA384");
            reveal_strlit("TLS_ECDH_RSA_WITH_CAMELLIA_128_CBC_SHA256");
            reveal_strlit("TLS_ECDH_RSA_WITH_CAMELLIA_256_CBC_SHA384");
            reveal_strlit("TLS_PSK_WITH_CAMELLIA_128_CBC_SHA256");
            reveal_strlit("TLS_PSK_WITH_CAMELLIA_256_CBC_SHA384");
            reveal_strlit("TLS_DHE_PSK_WITH_CAMELLIA_128_CBC_SHA256");
            reveal_strlit("TLS_DHE_PSK_WITH_CAMELLIA_256_CBC_SHA384");
            reveal_strlit("TLS_RSA_PSK_WITH_CAMELLIA_128_CBC_SHA256");
            reveal_strlit("TLS_RSA_PSK_WITH_CAMELLIA_256_CBC_SHA384");
            reveal_strlit("TLS_ECDHE_PSK_WITH_CAMELLIA_128_CBC_SHA256");
            reveal_strlit("TLS_ECDHE_PSK_WITH_CAMELLIA_256_CBC_SHA384");
            reveal_strlit("TLS_RSA_WITH_AES_128_CCM");
            reveal_strlit("TLS_RSA_WITH_AES_256_CCM");
            reveal_strlit("TLS_DHE_RSA_WITH_AES_128_CCM");
            reveal_strlit("TLS_DHE_RSA_WITH_AES_256_CCM");
            reveal_strlit("TLS_RSA_WITH_AES_128_CCM_8");
            reveal_strlit("TLS_RSA_WITH_AES_256_CCM_8");
            reveal_strlit("TLS_DHE_RSA_WITH_AES_128_CCM_8");
            reveal_strlit("TLS_DHE_RSA_WITH_AES_256_CCM_8");
            reveal_strlit("TLS_PSK_WITH_AES_128_CCM");
            reveal_strlit("TLS_PSK_WITH_AES_256_CCM");
            reveal_strlit("TLS_DHE_PSK_WITH_AES_128_CCM");
            reveal_strlit("TLS_DHE_PSK_WITH_AES_256_CCM");
            reveal_strlit("TLS_PSK_WITH_AES_128_CCM_8");
            reveal_strlit("TLS_PSK_WITH_AES_256_CCM_8");
            reveal_strlit("TLS_PSK_DHE_WITH_AES_128_CCM_8");
            reveal_strlit("TLS_PSK_DHE_WITH_AES_256_CCM_8");
            reveal_strlit("TLS_ECDHE_ECDSA_WITH_AES_128_CCM");
            reveal_strlit("TLS_ECDHE_ECDSA_WITH_AES_256_CCM");
            reveal_strlit("TLS_ECDHE_ECDSA_WITH_AES_128_CCM_8");
            reveal_strlit("TLS_ECDHE_ECDSA_WITH_AES_256_CCM_8");
            reveal_strlit("OLD_TLS_ECDHE_RSA_WITH_CHACHA20_POLY1305_SHA256");
            reveal_strlit("OLD_TLS_ECDHE_ECDSA_WITH_CHACHA20_POLY1305_SHA256");
            reveal_strlit("OLD_TLS_DHE_RSA_WITH_CHACHA20_POLY1305_SHA256");
            reveal_strlit("TLS_ECDHE_RSA_WITH_CHACHA20_POLY1305_SHA256");
            reveal_strlit("TLS_ECDHE_ECDSA_WITH_CHACHA20_POLY1305_SHA256");
            reveal_strlit("TLS_DHE_RSA_WITH_CHACHA20_POLY1305_SHA256");
            reveal_strlit("TLS_PSK_WITH_CHACHA20_POLY1305_SHA256");
            reveal_strlit("TLS_ECDHE_PSK_WITH_CHACHA20_POLY1305_SHA256");
            reveal_strlit("TLS_DHE_PSK_WITH_CHACHA20_POLY1305_SHA256");
            reveal_strlit("TLS_RSA_PSK_WITH_CHACHA20_POLY1305_SHA256");
            let s = a.spec_rfc_name();
            if s == b.spec_rfc_name() {
                // Naming each place lets the solver compare the two literals
                // character by character.
                assert(s.len() == b.spec_rfc_name().len());
                assert(s[0] == b.spec_rfc_name()[0]);
                assert(s[1] == b.spec_rfc_name()[1]);
                assert(s[2] == b.spec_rfc_name()[2]);
                assert(s[3] == b.spec_rfc_name()[3]);
                assert(s[4] == b.spec_rfc_name()[4]);
                assert(s[5] == b.spec_rfc_name()[5]);
                assert(s[6] == b.spec_rfc_name()[6]);
                assert(s[7] == b.spec_rfc_name()[7]);
                assert(s[8] == b.spec_rfc_name()[8]);
                assert(s[9] == b.spec_rfc_name()[9]);
                assert(s[10] == b.spec_rfc_name()[10]);
                assert(s[11] == b.spec_rfc_name()[11]);
                assert(s[12] == b.spec_rfc_name()[12]);
                assert(s[13] == b.spec_rfc_name()[13]);
                assert(s[14] == b.spec_rfc_name()[14]);
                assert(s[15] == b.spec_rfc_name()[15]);
                assert(s[16] == b.spec_rfc_name()[16]);
                assert(s[17] == b.spec_rfc_name()[17]);
                assert(s[18] == b.spec_rfc_name()[18]);
                assert(s[19] == b.spec_rfc_name()[19]);
                assert(s[20] == b.spec_rfc_name()[20]);
                assert(s[21] == b.spec_rfc_name()[21]);
                assert(s[22] == b.spec_rfc_name()[22]);
                assert(s[23] == b.spec_rfc_name()[23]);
                assert(s[24] == b.spec_rfc_name()[24]);
                assert(s[25] == b.spec_rfc_name()[25]);
                assert(s[26] == b.spec_rfc_name()[26]);
                assert(s[27] == b.spec_rfc_name()[27]);
                assert(s[28] == b.spec_rfc_name()[28]);
                assert(s[29] == b.spec_rfc_name()[29]);
                assert(s[30] == b.spec_rfc_name()[30]);
                assert(s[31] == b.spec_rfc_name()[31]);
                assert(s[32] == b.spec_rfc_name()[32]);
                assert(s[33] == b.spec_rfc_name()[33]);
                assert(s[34] == b.spec_rfc_name()[34]);
                assert(s[35] == b.spec_rfc_name()[35]);
                assert(s[36] == b.spec_rfc_name()[36]);
                assert(s[37] == b.spec_rfc_name()[37]);
                assert(s[38] == b.spec_rfc_name()[38]);
                assert(s[39] == b.spec_rfc_name()[39]);
                assert(s[40] == b.spec_rfc_name()[40]);
                assert(s[41] == b.spec_rfc_name()[41]);
                assert(s[42] == b.spec_rfc_name()[42]);
                assert(s[43] == b.spec_rfc_name()[43]);
                assert(s[44] == b.spec_rfc_name()[44]);
                assert(s[45] == b.spec_rfc_name()[45]);
                assert(s[46] == b.spec_rfc_name()[46]);
                assert(s[47] == b.spec_rfc_name()[47]);
                assert(s[48] == b.spec_rfc_name()[48]);
            }
        }
        assert forall|c: Self| (#[trigger] c.spec_rfc_name()).len() > 0 by {
            assert(c.spec_rfc_name().len() > 0 && (c.spec_rfc_name() == c.spec_rfc_name() ==> c == c));
        }
    }

    /// Looking up the RFC identifier of a suite gives that suite back.
    pub proof fn lemma_rfc_round_trip(c: Self)
        ensures
            Self::spec_from_rfc_name(c.spec_rfc_name()) == Some(c),
    {
        Self::lemma_rfc_names_distinct();
    }
}

} // verus!
