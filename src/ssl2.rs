use vstd::prelude::*;

use crate::text::same_text;

verus! {

/// Number of SSLv2 cipher suites that [`SSLV2CipherSuite`] lists.
pub const SSLV2_SUITE_COUNT: usize = 9;

/// An SSLv2 cipher suite, named by its identifier.
///
/// The OpenSSL spelling `NULL-MD5` names `TLS_RSA_WITH_NULL_MD5` here and in
/// [`crate::TLSCipherSuite`] alike: the two enumerations are separate namespaces, and
/// a caller picks the one that matches the protocol in use.
#[allow(non_camel_case_types)]
#[derive(PartialEq, Eq, Structural, Debug, Clone, Copy)]
pub enum SSLV2CipherSuite {
    SSL_CK_RC4_128_WITH_MD5,
    SSL_CK_RC4_128_EXPORT40_WITH_MD5,
    SSL_CK_RC2_128_CBC_WITH_MD5,
    SSL_CK_RC2_128_CBC_EXPORT40_WITH_MD5,
    SSL_CK_IDEA_128_CBC_WITH_MD5,
    SSL_CK_DES_64_CBC_WITH_MD5,
    SSL_CK_DES_192_EDE3_CBC_WITH_MD5,
    SSL_CK_RC4_64_WITH_MD5,
    TLS_RSA_WITH_NULL_MD5,
}

impl SSLV2CipherSuite {
    /// The OpenSSL spelling of the suite.
    pub open spec fn spec_openssl_name(self) -> Seq<char> {
        match self {
            SSLV2CipherSuite::SSL_CK_RC4_128_WITH_MD5 => "RC4-MD5"@,
            SSLV2CipherSuite::SSL_CK_RC4_128_EXPORT40_WITH_MD5 => "EXP-RC4-MD5"@,
            SSLV2CipherSuite::SSL_CK_RC2_128_CBC_WITH_MD5 => "RC2-CBC-MD5"@,
            SSLV2CipherSuite::SSL_CK_RC2_128_CBC_EXPORT40_WITH_MD5 => "EXP-RC2-CBC-MD5"@,
            SSLV2CipherSuite::SSL_CK_IDEA_128_CBC_WITH_MD5 => "IDEA-CBC-MD5"@,
            SSLV2CipherSuite::SSL_CK_DES_64_CBC_WITH_MD5 => "DES-CBC-MD5"@,
            SSLV2CipherSuite::SSL_CK_DES_192_EDE3_CBC_WITH_MD5 => "DES-CBC3-MD5"@,
            SSLV2CipherSuite::SSL_CK_RC4_64_WITH_MD5 => "RC4-64-MD5"@,
            SSLV2CipherSuite::TLS_RSA_WITH_NULL_MD5 => "NULL-MD5"@,
        }
    }

    /// The RFC identifier of the suite.
    pub open spec fn spec_rfc_name(self) -> Seq<char> {
        match self {
            SSLV2CipherSuite::SSL_CK_RC4_128_WITH_MD5 => "SSL_CK_RC4_128_WITH_MD5"@,
            SSLV2CipherSuite::SSL_CK_RC4_128_EXPORT40_WITH_MD5 => "SSL_CK_RC4_128_EXPORT40_WITH_MD5"@,
            SSLV2CipherSuite::SSL_CK_RC2_128_CBC_WITH_MD5 => "SSL_CK_RC2_128_CBC_WITH_MD5"@,
            SSLV2CipherSuite::SSL_CK_RC2_128_CBC_EXPORT40_WITH_MD5 => "SSL_CK_RC2_128_CBC_EXPORT40_WITH_MD5"@,
            SSLV2CipherSuite::SSL_CK_IDEA_128_CBC_WITH_MD5 => "SSL_CK_IDEA_128_CBC_WITH_MD5"@,
            SSLV2CipherSuite::SSL_CK_DES_64_CBC_WITH_MD5 => "SSL_CK_DES_64_CBC_WITH_MD5"@,
            SSLV2CipherSuite::SSL_CK_DES_192_EDE3_CBC_WITH_MD5 => "SSL_CK_DES_192_EDE3_CBC_WITH_MD5"@,
            SSLV2CipherSuite::SSL_CK_RC4_64_WITH_MD5 => "SSL_CK_RC4_64_WITH_MD5"@,
            SSLV2CipherSuite::TLS_RSA_WITH_NULL_MD5 => "TLS_RSA_WITH_NULL_MD5"@,
        }
    }

    /// The place of the suite in declaration order.
    pub open spec fn spec_position(self) -> int {
        match self {
            SSLV2CipherSuite::SSL_CK_RC4_128_WITH_MD5 => 0,
            SSLV2CipherSuite::SSL_CK_RC4_128_EXPORT40_WITH_MD5 => 1,
            SSLV2CipherSuite::SSL_CK_RC2_128_CBC_WITH_MD5 => 2,
            SSLV2CipherSuite::SSL_CK_RC2_128_CBC_EXPORT40_WITH_MD5 => 3,
            SSLV2CipherSuite::SSL_CK_IDEA_128_CBC_WITH_MD5 => 4,
            SSLV2CipherSuite::SSL_CK_DES_64_CBC_WITH_MD5 => 5,
            SSLV2CipherSuite::SSL_CK_DES_192_EDE3_CBC_WITH_MD5 => 6,
            SSLV2CipherSuite::SSL_CK_RC4_64_WITH_MD5 => 7,
            SSLV2CipherSuite::TLS_RSA_WITH_NULL_MD5 => 8,
        }
    }

    /// The suite at place `i` in declaration order (the first one before the start, the
    /// last one past the end).
    #[verifier::opaque]
    pub open spec fn spec_at(i: int) -> Self {
        if i <= 0 {
            SSLV2CipherSuite::SSL_CK_RC4_128_WITH_MD5
        } else if i <= 1 {
            SSLV2CipherSuite::SSL_CK_RC4_128_EXPORT40_WITH_MD5
        } else if i <= 2 {
            SSLV2CipherSuite::SSL_CK_RC2_128_CBC_WITH_MD5
        } else if i <= 3 {
            SSLV2CipherSuite::SSL_CK_RC2_128_CBC_EXPORT40_WITH_MD5
        } else if i <= 4 {
            SSLV2CipherSuite::SSL_CK_IDEA_128_CBC_WITH_MD5
        } else if i <= 5 {
            SSLV2CipherSuite::SSL_CK_DES_64_CBC_WITH_MD5
        } else if i <= 6 {
            SSLV2CipherSuite::SSL_CK_DES_192_EDE3_CBC_WITH_MD5
        } else if i <= 7 {
            SSLV2CipherSuite::SSL_CK_RC4_64_WITH_MD5
        } else {
            SSLV2CipherSuite::TLS_RSA_WITH_NULL_MD5
        }
    }

    /// Every suite, in declaration order.
    pub open spec fn spec_all() -> Seq<Self> {
        Seq::new(SSLV2_SUITE_COUNT as nat, |i: int| Self::spec_at(i))
    }

    /// The suite whose OpenSSL spelling is `name`, if there is one.
    pub open spec fn spec_from_openssl_name(name: Seq<char>) -> Option<Self> {
        if exists|c: Self| c.spec_openssl_name() == name {
            Some(choose|c: Self| c.spec_openssl_name() == name)
        } else {
            None
        }
    }

    /// The suite whose RFC identifier is `name`, if there is one.
    pub open spec fn spec_from_rfc_name(name: Seq<char>) -> Option<Self> {
        if exists|c: Self| c.spec_rfc_name() == name {
            Some(choose|c: Self| c.spec_rfc_name() == name)
        } else {
            None
        }
    }

    /// The OpenSSL spelling of the suite.
    pub fn as_openssl_name(&self) -> (r: &'static str)
        ensures
            r@ == self.spec_openssl_name(),
    {
        match self {
            SSLV2CipherSuite::SSL_CK_RC4_128_WITH_MD5 => "RC4-MD5",
            SSLV2CipherSuite::SSL_CK_RC4_128_EXPORT40_WITH_MD5 => "EXP-RC4-MD5",
            SSLV2CipherSuite::SSL_CK_RC2_128_CBC_WITH_MD5 => "RC2-CBC-MD5",
            SSLV2CipherSuite::SSL_CK_RC2_128_CBC_EXPORT40_WITH_MD5 => "EXP-RC2-CBC-MD5",
            SSLV2CipherSuite::SSL_CK_IDEA_128_CBC_WITH_MD5 => "IDEA-CBC-MD5",
            SSLV2CipherSuite::SSL_CK_DES_64_CBC_WITH_MD5 => "DES-CBC-MD5",
            SSLV2CipherSuite::SSL_CK_DES_192_EDE3_CBC_WITH_MD5 => "DES-CBC3-MD5",
            SSLV2CipherSuite::SSL_CK_RC4_64_WITH_MD5 => "RC4-64-MD5",
            SSLV2CipherSuite::TLS_RSA_WITH_NULL_MD5 => "NULL-MD5",
        }
    }

    /// The OpenSSL spelling of the suite; the same as `as_openssl_name`.
    pub fn into_openssl_name(&self) -> (r: &'static str)
        ensures
            r@ == self.spec_openssl_name(),
    {
        self.as_openssl_name()
    }

    /// The RFC identifier of the suite.
    pub fn as_rfc_name(&self) -> (r: &'static str)
        ensures
            r@ == self.spec_rfc_name(),
    {
        match self {
            SSLV2CipherSuite::SSL_CK_RC4_128_WITH_MD5 => "SSL_CK_RC4_128_WITH_MD5",
            SSLV2CipherSuite::SSL_CK_RC4_128_EXPORT40_WITH_MD5 => "SSL_CK_RC4_128_EXPORT40_WITH_MD5",
            SSLV2CipherSuite::SSL_CK_RC2_128_CBC_WITH_MD5 => "SSL_CK_RC2_128_CBC_WITH_MD5",
            SSLV2CipherSuite::SSL_CK_RC2_128_CBC_EXPORT40_WITH_MD5 => "SSL_CK_RC2_128_CBC_EXPORT40_WITH_MD5",
            SSLV2CipherSuite::SSL_CK_IDEA_128_CBC_WITH_MD5 => "SSL_CK_IDEA_128_CBC_WITH_MD5",
            SSLV2CipherSuite::SSL_CK_DES_64_CBC_WITH_MD5 => "SSL_CK_DES_64_CBC_WITH_MD5",
            SSLV2CipherSuite::SSL_CK_DES_192_EDE3_CBC_WITH_MD5 => "SSL_CK_DES_192_EDE3_CBC_WITH_MD5",
            SSLV2CipherSuite::SSL_CK_RC4_64_WITH_MD5 => "SSL_CK_RC4_64_WITH_MD5",
            SSLV2CipherSuite::TLS_RSA_WITH_NULL_MD5 => "TLS_RSA_WITH_NULL_MD5",
        }
    }

    /// The suite at place `i` in declaration order.
    pub fn at(i: usize) -> (r: Self)
        requires
            i < SSLV2_SUITE_COUNT,
        ensures
            r == Self::spec_at(i as int),
    {
        reveal(SSLV2CipherSuite::spec_at);
        match i {
            0 => SSLV2CipherSuite::SSL_CK_RC4_128_WITH_MD5,
            1 => SSLV2CipherSuite::SSL_CK_RC4_128_EXPORT40_WITH_MD5,
            2 => SSLV2CipherSuite::SSL_CK_RC2_128_CBC_WITH_MD5,
            3 => SSLV2CipherSuite::SSL_CK_RC2_128_CBC_EXPORT40_WITH_MD5,
            4 => SSLV2CipherSuite::SSL_CK_IDEA_128_CBC_WITH_MD5,
            5 => SSLV2CipherSuite::SSL_CK_DES_64_CBC_WITH_MD5,
            6 => SSLV2CipherSuite::SSL_CK_DES_192_EDE3_CBC_WITH_MD5,
            7 => SSLV2CipherSuite::SSL_CK_RC4_64_WITH_MD5,
            _ => SSLV2CipherSuite::TLS_RSA_WITH_NULL_MD5,
        }
    }

    /// Lists every suite once, in declaration order.
    pub fn enumerate() -> (r: Vec<Self>)
        ensures
            r@ == Self::spec_all(),
    {
        let mut r: Vec<Self> = Vec::new();
        let mut i: usize = 0;
        while i < SSLV2_SUITE_COUNT
            invariant
                i <= SSLV2_SUITE_COUNT,
                r@.len() == i,
                forall|j: int| 0 <= j < i ==> r@[j] == Self::spec_at(j),
            decreases SSLV2_SUITE_COUNT - i,
        {
            r.push(Self::at(i));
            i = i + 1;
        }
        assert(r@ =~= Self::spec_all());
        r
    }

    /// Looks a suite up by its OpenSSL spelling, matched exactly and case-sensitively;
    /// `None` when no suite has that OpenSSL spelling.
    pub fn from_openssl_name(name: &str) -> (r: Option<Self>)
        ensures
            r == Self::spec_from_openssl_name(name@),
    {
        let mut i: usize = 0;
        while i < SSLV2_SUITE_COUNT
            invariant
                i <= SSLV2_SUITE_COUNT,
                forall|j: int| 0 <= j < i ==> Self::spec_at(j).spec_openssl_name() != name@,
            decreases SSLV2_SUITE_COUNT - i,
        {
            let c = Self::at(i);
            if same_text(name, c.as_openssl_name()) {
                proof {
                    Self::lemma_openssl_names_distinct();
                    assert(c.spec_openssl_name() == name@);
                }
                return Some(c);
            }
            i = i + 1;
        }
        proof {
            Self::lemma_positions();
            assert forall|c: Self| c.spec_openssl_name() != name@ by {
                assert(Self::spec_at(c.spec_position()) == c);
            }
        }
        None
    }

    /// Looks a suite up by its RFC identifier, matched exactly and case-sensitively;
    /// `None` when no suite has that RFC identifier.
    pub fn from_rfc_name(name: &str) -> (r: Option<Self>)
        ensures
            r == Self::spec_from_rfc_name(name@),
    {
        let mut i: usize = 0;
        while i < SSLV2_SUITE_COUNT
            invariant
                i <= SSLV2_SUITE_COUNT,
                forall|j: int| 0 <= j < i ==> Self::spec_at(j).spec_rfc_name() != name@,
            decreases SSLV2_SUITE_COUNT - i,
        {
            let c = Self::at(i);
            if same_text(name, c.as_rfc_name()) {
                proof {
                    Self::lemma_rfc_names_distinct();
                    assert(c.spec_rfc_name() == name@);
                }
                return Some(c);
            }
            i = i + 1;
        }
        proof {
            Self::lemma_positions();
            assert forall|c: Self| c.spec_rfc_name() != name@ by {
                assert(Self::spec_at(c.spec_position()) == c);
            }
        }
        None
    }

    /// Each suite sits at its own place: places lie below the count, and the suite at a
    /// suite's place is that suite.
    pub proof fn lemma_positions()
        ensures
            forall|c: Self| 0 <= #[trigger] c.spec_position() < SSLV2_SUITE_COUNT,
            forall|c: Self| Self::spec_at(#[trigger] c.spec_position()) == c,
    {
        reveal(SSLV2CipherSuite::spec_at);
    }

    /// The place of the suite at a place is that place, for every place below the count.
    pub proof fn lemma_places()
        ensures
            forall|i: int| 0 <= i < SSLV2_SUITE_COUNT ==> (#[trigger] Self::spec_at(i)).spec_position() == i,
    {
        reveal(SSLV2CipherSuite::spec_at);
    }

    /// The enumeration holds every suite, none twice, and each of its suites has a
    /// nonempty OpenSSL spelling and a nonempty RFC identifier.
    pub proof fn lemma_all_suites()
        ensures
            Self::spec_all().len() == SSLV2_SUITE_COUNT,
            forall|c: Self| Self::spec_all().contains(c),
            Self::spec_all().no_duplicates(),
            forall|i: int| 0 <= i < SSLV2_SUITE_COUNT ==> (#[trigger] Self::spec_all()[i]).spec_openssl_name().len() > 0
                && Self::spec_all()[i].spec_rfc_name().len() > 0,
    {
        Self::lemma_positions();
        Self::lemma_places();
        Self::lemma_openssl_names_distinct();
        Self::lemma_rfc_names_distinct();
        assert forall|c: Self| Self::spec_all().contains(c) by {
            assert(Self::spec_all()[c.spec_position()] == c);
        }
    }

    /// Every OpenSSL spelling is nonempty, and no two suites share one.
    pub proof fn lemma_openssl_names_distinct()
        ensures
            forall|c: Self| (#[trigger] c.spec_openssl_name()).len() > 0,
            forall|a: Self, b: Self| a.spec_openssl_name() == b.spec_openssl_name() ==> a == b,
    {
        assert forall|a: Self, b: Self|
            a.spec_openssl_name().len() > 0 && (a.spec_openssl_name() == b.spec_openssl_name() ==> a == b) by {
            reveal_strlit("RC4-MD5");
            reveal_strlit("EXP-RC4-MD5");
            reveal_strlit("RC2-CBC-MD5");
            reveal_strlit("EXP-RC2-CBC-MD5");
            reveal_strlit("IDEA-CBC-MD5");
            reveal_strlit("DES-CBC-MD5");
            reveal_strlit("DES-CBC3-MD5");
            reveal_strlit("RC4-64-MD5");
            reveal_strlit("NULL-MD5");
            let s = a.spec_openssl_name();
            if s == b.spec_openssl_name() {
                // Naming each place lets the solver compare the two literals
                // character by character.
                assert(s.len() == b.spec_openssl_name().len());
                assert(s[0] == b.spec_openssl_name()[0]);
                assert(s[1] == b.spec_openssl_name()[1]);
                assert(s[2] == b.spec_openssl_name()[2]);
                assert(s[3] == b.spec_openssl_name()[3]);
                assert(s[4] == b.spec_openssl_name()[4]);
                assert(s[5] == b.spec_openssl_name()[5]);
                assert(s[6] == b.spec_openssl_name()[6]);
                assert(s[7] == b.spec_openssl_name()[7]);
                assert(s[8] == b.spec_openssl_name()[8]);
                assert(s[9] == b.spec_openssl_name()[9]);
                assert(s[10] == b.spec_openssl_name()[10]);
                assert(s[11] == b.spec_openssl_name()[11]);
                assert(s[12] == b.spec_openssl_name()[12]);
                assert(s[13] == b.spec_openssl_name()[13]);
                assert(s[14] == b.spec_openssl_name()[14]);
            }
        }
        assert forall|c: Self| (#[trigger] c.spec_openssl_name()).len() > 0 by {
            assert(c.spec_openssl_name().len() > 0 && (c.spec_openssl_name() == c.spec_openssl_name() ==> c == c));
        }
    }

    /// Looking up the OpenSSL spelling of a suite gives that suite back.
    pub proof fn lemma_openssl_round_trip(c: Self)
        ensures
            Self::spec_from_openssl_name(c.spec_openssl_name()) == Some(c),
    {
        Self::lemma_openssl_names_distinct();
    }

    /// Every RFC identifier is nonempty, and no two suites share one.
    pub proof fn lemma_rfc_names_distinct()
        ensures
            forall|c: Self| (#[trigger] c.spec_rfc_name()).len() > 0,
            forall|a: Self, b: Self| a.spec_rfc_name() == b.spec_rfc_name() ==> a == b,
    {
        assert forall|a: Self, b: Self|
            a.spec_rfc_name().len() > 0 && (a.spec_rfc_name() == b.spec_rfc_name() ==> a == b) by {
            reveal_strlit("SSL_CK_RC4_128_WITH_MD5");
            reveal_strlit("SSL_CK_RC4_128_EXPORT40_WITH_MD5");
            reveal_strlit("SSL_CK_RC2_128_CBC_WITH_MD5");
            reveal_strlit("SSL_CK_RC2_128_CBC_EXPORT40_WITH_MD5");
            reveal_strlit("SSL_CK_IDEA_128_CBC_WITH_MD5");
            reveal_strlit("SSL_CK_DES_64_CBC_WITH_MD5");
            reveal_strlit("SSL_CK_DES_192_EDE3_CBC_WITH_MD5");
            reveal_strlit("SSL_CK_RC4_64_WITH_MD5");
            reveal_strlit("TLS_RSA_WITH_NULL_MD5");
            let s = a.spec_rfc_name();
            if s == b.spec_rfc_name() {
                // Naming each place lets the solver compare the two literals
                // character by character.
                assert(s.len() == b.spec_rfc_name().len());
                assert(s[0] == b.spec_rfc_name()[0]);
                assert(s[1] == b.spec_rfc_name()[1]);
                assert(s[2] == b.spec_rfc_name()[2]);
                assert(s[3] == b.spec_rfc_name()[3]);
                assert(s[4] == b.spec_rfc_name()[4]);
                assert(s[5] == b.spec_rfc_name()[5]);
                assert(s[6] == b.spec_rfc_name()[6]);
                assert(s[7] == b.spec_rfc_name()[7]);
                assert(s[8] == b.spec_rfc_name()[8]);
                assert(s[9] == b.spec_rfc_name()[9]);
                assert(s[10] == b.spec_rfc_name()[10]);
                assert(s[11] == b.spec_rfc_name()[11]);
                assert(s[12] == b.spec_rfc_name()[12]);
                assert(s[13] == b.spec_rfc_name()[13]);
                assert(s[14] == b.spec_rfc_name()[14]);
                assert(s[15] == b.spec_rfc_name()[15]);
                assert(s[16] == b.spec_rfc_name()[16]);
                assert(s[17] == b.spec_rfc_name()[17]);
                assert(s[18] == b.spec_rfc_name()[18]);
                assert(s[19] == b.spec_rfc_name()[19]);
                assert(s[20] == b.spec_rfc_name()[20]);
                assert(s[21] == b.spec_rfc_name()[21]);
                assert(s[22] == b.spec_rfc_name()[22]);
                assert(s[23] == b.spec_rfc_name()[23]);
                assert(s[24] == b.spec_rfc_name()[24]);
                assert(s[25] == b.spec_rfc_name()[25]);
                assert(s[26] == b.spec_rfc_name()[26]);
                assert(s[27] == b.spec_rfc_name()[27]);
                assert(s[28] == b.spec_rfc_name()[28]);
                assert(s[29] == b.spec_rfc_name()[29]);
                assert(s[30] == b.spec_rfc_name()[30]);
                assert(s[31] == b.spec_rfc_name()[31]);
                assert(s[32] == b.spec_rfc_name()[32]);
                assert(s[33] == b.spec_rfc_name()[33]);
                assert(s[34] == b.spec_rfc_name()[34]);
                assert(s[35] == b.spec_rfc_name()[35]);
            }
        }
        assert forall|c: Self| (#[trigger] c.spec_rfc_name()).len() > 0 by {
            assert(c.spec_rfc_name().len() > 0 && (c.spec_rfc_name() == c.spec_rfc_name() ==> c == c));
        }
    }

    /// Looking up the RFC identifier of a suite gives that suite back.
    pub proof fn lemma_rfc_round_trip(c: Self)
        ensures
            Self::spec_from_rfc_name(c.spec_rfc_name()) == Some(c),
    {
        Self::lemma_rfc_names_distinct();
    }
}

} // verus!
