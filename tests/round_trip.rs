use openssl_to_rfc::{SSLV2CipherSuite, TLSCipherSuite};

#[test]
fn round_trip_openssl() {
    for cipher in TLSCipherSuite::enumerate() {
        let openssl_name = openssl::ssl::cipher_name(cipher.as_rfc_name());

        // We skip the test here if openssl::ssl::cipher_name does not
        // recognize the provided RFC name. This usually happens for very
        // old cipher suites that current OpenSSL no longer supports.
        if openssl_name == "(NONE)" {
            return;
        }

        let c = TLSCipherSuite::from_openssl_name(openssl_name).unwrap();
        assert_eq!(c, cipher);
    }
}

#[test]
fn round_trip_tls_names() {
    for cipher in TLSCipherSuite::enumerate() {
        let openssl_name = cipher.as_openssl_name();
        let c = TLSCipherSuite::from_openssl_name(openssl_name).unwrap();
        assert_eq!(c, cipher);
    }
}

#[test]
fn round_trip_ssl2_names() {
    for cipher in SSLV2CipherSuite::enumerate() {
        let openssl_name = cipher.as_openssl_name();
        let c = SSLV2CipherSuite::from_openssl_name(openssl_name).unwrap();
        assert_eq!(c, cipher);
    }
}

#[test]
fn openssl_agrees_on_every_suite_it_knows() {
    let mut known = 0;
    for cipher in TLSCipherSuite::enumerate() {
        let openssl_name = openssl::ssl::cipher_name(cipher.as_rfc_name());
        if openssl_name == "(NONE)" {
            continue;
        }
        known += 1;
        assert_eq!(openssl_name, cipher.as_openssl_name(), "{}", cipher.as_rfc_name());
        assert_eq!(TLSCipherSuite::from_openssl_name(openssl_name), Some(cipher));
    }
    assert!(known > 0);
}

#[test]
fn round_trip_tls_rfc_names() {
    for cipher in TLSCipherSuite::enumerate() {
        assert_eq!(TLSCipherSuite::from_rfc_name(cipher.as_rfc_name()), Some(cipher));
    }
}

#[test]
fn round_trip_ssl2_rfc_names() {
    for cipher in SSLV2CipherSuite::enumerate() {
        assert_eq!(SSLV2CipherSuite::from_rfc_name(cipher.as_rfc_name()), Some(cipher));
    }
}
