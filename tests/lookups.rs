use std::collections::HashSet;

use openssl_to_rfc::ssl2::SSLV2_SUITE_COUNT;
use openssl_to_rfc::text::same_text;
use openssl_to_rfc::tls::TLS_SUITE_COUNT;
use openssl_to_rfc::{SSLV2CipherSuite, TLSCipherSuite};

#[test]
fn ecdh_rsa_aes128_gcm() {
    let openssl_name = "ECDH-RSA-AES128-GCM-SHA256";
    let cipher = TLSCipherSuite::from_openssl_name(openssl_name).unwrap();
    assert_eq!(cipher, TLSCipherSuite::TLS_ECDH_RSA_WITH_AES_128_GCM_SHA256);
    assert_eq!(cipher.as_rfc_name(), "TLS_ECDH_RSA_WITH_AES_128_GCM_SHA256");
    assert_eq!(cipher.as_openssl_name(), openssl_name);
}

#[test]
fn garbage_is_not_found() {
    for name in ["", "NOT-A-REAL-CIPHER", "tls_rsa_with_null_md5", "null-md5", "NULL-MD5 "] {
        assert_eq!(TLSCipherSuite::from_openssl_name(name), None);
        assert_eq!(SSLV2CipherSuite::from_openssl_name(name), None);
        assert_eq!(TLSCipherSuite::from_rfc_name(name), None);
        assert_eq!(SSLV2CipherSuite::from_rfc_name(name), None);
    }
}

#[test]
fn rfc_lookup_is_case_sensitive() {
    assert_eq!(
        TLSCipherSuite::from_rfc_name("TLS_RSA_WITH_NULL_MD5"),
        Some(TLSCipherSuite::TLS_RSA_WITH_NULL_MD5)
    );
    assert_eq!(TLSCipherSuite::from_rfc_name("tls_rsa_with_null_md5"), None);
    assert_eq!(TLSCipherSuite::from_rfc_name("TLS_DH_ANON_WITH_RC4_128_MD5"), None);
    assert_eq!(
        TLSCipherSuite::from_rfc_name("TLS_DH_anon_WITH_RC4_128_MD5"),
        Some(TLSCipherSuite::TLS_DH_anon_WITH_RC4_128_MD5)
    );
}

#[test]
fn null_md5_in_both_eras() {
    let tls = TLSCipherSuite::from_openssl_name("NULL-MD5").unwrap();
    let ssl2 = SSLV2CipherSuite::from_openssl_name("NULL-MD5").unwrap();
    assert_eq!(tls, TLSCipherSuite::TLS_RSA_WITH_NULL_MD5);
    assert_eq!(ssl2, SSLV2CipherSuite::TLS_RSA_WITH_NULL_MD5);
    assert_eq!(SSLV2CipherSuite::from_openssl_name("RC4-MD5"), Some(SSLV2CipherSuite::SSL_CK_RC4_128_WITH_MD5));
    assert_eq!(TLSCipherSuite::from_openssl_name("RC4-MD5"), Some(TLSCipherSuite::TLS_RSA_WITH_RC4_128_MD5));
    assert_eq!(SSLV2CipherSuite::from_openssl_name("AES128-SHA"), None);
}

#[test]
fn old_chacha_suites_stay_distinct() {
    assert_eq!(
        TLSCipherSuite::from_openssl_name("ECDHE-RSA-CHACHA20-POLY1305-OLD"),
        Some(TLSCipherSuite::OLD_TLS_ECDHE_RSA_WITH_CHACHA20_POLY1305_SHA256)
    );
    assert_eq!(
        TLSCipherSuite::from_openssl_name("ECDHE-RSA-CHACHA20-POLY1305"),
        Some(TLSCipherSuite::TLS_ECDHE_RSA_WITH_CHACHA20_POLY1305_SHA256)
    );
    assert_eq!(
        TLSCipherSuite::OLD_TLS_ECDHE_RSA_WITH_CHACHA20_POLY1305_SHA256.as_rfc_name(),
        "OLD_TLS_ECDHE_RSA_WITH_CHACHA20_POLY1305_SHA256"
    );
}

#[test]
fn tls13_suites_share_their_names() {
    let c = TLSCipherSuite::from_openssl_name("TLS_AES_256_GCM_SHA384").unwrap();
    assert_eq!(c, TLSCipherSuite::TLS_AES_256_GCM_SHA384);
    assert_eq!(c.as_rfc_name(), c.as_openssl_name());
}

#[test]
fn every_listed_suite_has_both_names() {
    for c in TLSCipherSuite::enumerate() {
        assert!(!c.as_openssl_name().is_empty());
        assert!(!c.as_rfc_name().is_empty());
    }
    for c in SSLV2CipherSuite::enumerate() {
        assert!(!c.as_openssl_name().is_empty());
        assert!(!c.as_rfc_name().is_empty());
    }
}

#[test]
fn names_are_unique_within_an_era() {
    let tls = TLSCipherSuite::enumerate();
    let short: HashSet<&str> = tls.iter().map(|c| c.as_openssl_name()).collect();
    let rfc: HashSet<&str> = tls.iter().map(|c| c.as_rfc_name()).collect();
    assert_eq!(short.len(), TLS_SUITE_COUNT);
    assert_eq!(rfc.len(), TLS_SUITE_COUNT);
    let ssl2 = SSLV2CipherSuite::enumerate();
    let short: HashSet<&str> = ssl2.iter().map(|c| c.as_openssl_name()).collect();
    let rfc: HashSet<&str> = ssl2.iter().map(|c| c.as_rfc_name()).collect();
    assert_eq!(short.len(), SSLV2_SUITE_COUNT);
    assert_eq!(rfc.len(), SSLV2_SUITE_COUNT);
}

#[test]
fn enumeration_is_complete_and_stable() {
    let first = TLSCipherSuite::enumerate();
    assert_eq!(first.len(), TLS_SUITE_COUNT);
    assert_eq!(first, TLSCipherSuite::enumerate());
    assert_eq!(first[0], TLSCipherSuite::TLS_RSA_WITH_NULL_MD5);
    assert_eq!(first[TLS_SUITE_COUNT - 1], TLSCipherSuite::TLS_RSA_PSK_WITH_CHACHA20_POLY1305_SHA256);
    assert!(first.contains(&TLSCipherSuite::TLS_ECDH_RSA_WITH_AES_128_GCM_SHA256));
    let ssl2 = SSLV2CipherSuite::enumerate();
    assert_eq!(
        ssl2,
        vec![
            SSLV2CipherSuite::SSL_CK_RC4_128_WITH_MD5,
            SSLV2CipherSuite::SSL_CK_RC4_128_EXPORT40_WITH_MD5,
            SSLV2CipherSuite::SSL_CK_RC2_128_CBC_WITH_MD5,
            SSLV2CipherSuite::SSL_CK_RC2_128_CBC_EXPORT40_WITH_MD5,
            SSLV2CipherSuite::SSL_CK_IDEA_128_CBC_WITH_MD5,
            SSLV2CipherSuite::SSL_CK_DES_64_CBC_WITH_MD5,
            SSLV2CipherSuite::SSL_CK_DES_192_EDE3_CBC_WITH_MD5,
            SSLV2CipherSuite::SSL_CK_RC4_64_WITH_MD5,
            SSLV2CipherSuite::TLS_RSA_WITH_NULL_MD5,
        ]
    );
}

#[test]
fn places_follow_declaration_order() {
    assert_eq!(TLSCipherSuite::at(0), TLSCipherSuite::TLS_RSA_WITH_NULL_MD5);
    assert_eq!(TLSCipherSuite::at(4), TLSCipherSuite::TLS_RSA_WITH_RC4_128_SHA);
    assert_eq!(SSLV2CipherSuite::at(8), SSLV2CipherSuite::TLS_RSA_WITH_NULL_MD5);
    assert_eq!(SSLV2CipherSuite::at(3), SSLV2CipherSuite::SSL_CK_RC2_128_CBC_EXPORT40_WITH_MD5);
}

#[test]
fn ssl2_names_exactly() {
    let c = SSLV2CipherSuite::SSL_CK_RC2_128_CBC_EXPORT40_WITH_MD5;
    assert_eq!(c.as_openssl_name(), "EXP-RC2-CBC-MD5");
    assert_eq!(c.into_openssl_name(), "EXP-RC2-CBC-MD5");
    assert_eq!(c.as_rfc_name(), "SSL_CK_RC2_128_CBC_EXPORT40_WITH_MD5");
    assert_eq!(SSLV2CipherSuite::SSL_CK_DES_192_EDE3_CBC_WITH_MD5.as_openssl_name(), "DES-CBC3-MD5");
    for c in SSLV2CipherSuite::enumerate() {
        assert_eq!(c.into_openssl_name(), c.as_openssl_name());
    }
}

#[test]
fn tls_names_exactly() {
    let c = TLSCipherSuite::TLS_DHE_RSA_WITH_AES_256_GCM_SHA384;
    assert_eq!(c.as_openssl_name(), "DHE-RSA-AES256-GCM-SHA384");
    assert_eq!(c.as_rfc_name(), "TLS_DHE_RSA_WITH_AES_256_GCM_SHA384");
    assert_eq!(TLSCipherSuite::TLS_RSA_WITH_3DES_EDE_CBC_SHA.as_openssl_name(), "DES-CBC3-SHA");
}

#[test]
fn same_text_compares_exactly() {
    assert!(same_text("", ""));
    assert!(same_text("NULL-MD5", "NULL-MD5"));
    assert!(!same_text("NULL-MD5", "NULL-SHA"));
    assert!(!same_text("NULL-MD5", "NULL-MD"));
    assert!(!same_text("", "A"));
    assert!(!same_text("null-md5", "NULL-MD5"));
    assert!(!same_text("caf\u{e9}", "cafe"));
    assert!(same_text("caf\u{e9}", "caf\u{e9}"));
}
