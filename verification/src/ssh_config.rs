//! The algorithm policy of an SSH hop: the legacy-algorithm allowlist a
//! target with `allow_insecure_algos` gets in place of the client's secure
//! defaults, and the group-exchange bounds that go with it.
use vstd::prelude::*;

verus! {

/// A key-exchange algorithm (or key-exchange extension marker).
#[derive(Clone, Copy, Debug, PartialEq, Eq, Structural)]
pub enum KexAlgorithm {
    MlKem768X25519Sha256,
    Curve25519,
    Curve25519PreRfc8731,
    EcdhSha2Nistp256,
    EcdhSha2Nistp384,
    EcdhSha2Nistp521,
    DhG16Sha512,
    DhG14Sha256,
    DhGexSha256,
    DhG1Sha1,
    ExtensionSupportAsClient,
    ExtensionSupportAsServer,
    ExtensionOpensshStrictKexAsClient,
    ExtensionOpensshStrictKexAsServer,
}

/// A host-key algorithm.
#[derive(Clone, Copy, Debug, PartialEq, Eq, Structural)]
pub enum KeyAlgorithm {
    Ed25519,
    EcdsaNistP256,
    EcdsaNistP384,
    EcdsaNistP521,
    RsaSha256,
    RsaSha512,
    /// RSA with SHA-1 signatures.
    Rsa,
    Dsa,
}

/// A cipher.
#[derive(Clone, Copy, Debug, PartialEq, Eq, Structural)]
pub enum CipherAlgorithm {
    Chacha20Poly1305,
    Aes256Gcm,
    Aes256Ctr,
    Aes256Cbc,
    Aes192Ctr,
    Aes192Cbc,
    Aes128Ctr,
    Aes128Cbc,
    TripleDesCbc,
}

/// A MAC algorithm.
#[derive(Clone, Copy, Debug, PartialEq, Eq, Structural)]
pub enum MacAlgorithm {
    HmacSha512Etm,
    HmacSha256Etm,
    HmacSha512,
    HmacSha256,
    HmacSha1Etm,
    HmacSha1,
}

/// The preferred algorithms of each kind, most preferred first.
#[derive(Clone, Debug, PartialEq, Eq)]
pub struct AlgorithmLists {
    pub kex: Vec<KexAlgorithm>,
    pub key: Vec<KeyAlgorithm>,
    pub cipher: Vec<CipherAlgorithm>,
    pub mac: Vec<MacAlgorithm>,
}

/// The algorithm lists as sequences.
pub struct AlgorithmListsSpec {
    pub kex: Seq<KexAlgorithm>,
    pub key: Seq<KeyAlgorithm>,
    pub cipher: Seq<CipherAlgorithm>,
    pub mac: Seq<MacAlgorithm>,
}

impl View for AlgorithmLists {
    type V = AlgorithmListsSpec;

    open spec fn view(&self) -> AlgorithmListsSpec {
        AlgorithmListsSpec { kex: self.kex@, key: self.key@, cipher: self.cipher@, mac: self.mac@ }
    }
}

/// The legacy-algorithm allowlist: the modern algorithms first, then the
/// legacy ones older devices still need (SHA-1 key exchange and MACs,
/// SHA-1 RSA and DSA keys, CBC and 3DES ciphers).
pub open spec fn spec_legacy_allowlist() -> AlgorithmListsSpec {
    AlgorithmListsSpec {
        kex: seq![
            KexAlgorithm::MlKem768X25519Sha256,
            KexAlgorithm::Curve25519,
            KexAlgorithm::Curve25519PreRfc8731,
            KexAlgorithm::EcdhSha2Nistp256,
            KexAlgorithm::EcdhSha2Nistp384,
            KexAlgorithm::EcdhSha2Nistp521,
            KexAlgorithm::DhG16Sha512,
            KexAlgorithm::DhG14Sha256,
            KexAlgorithm::DhGexSha256,
            KexAlgorithm::DhG1Sha1,
            KexAlgorithm::ExtensionSupportAsClient,
            KexAlgorithm::ExtensionSupportAsServer,
            KexAlgorithm::ExtensionOpensshStrictKexAsClient,
            KexAlgorithm::ExtensionOpensshStrictKexAsServer,
        ],
        key: seq![
            KeyAlgorithm::Ed25519,
            KeyAlgorithm::EcdsaNistP256,
            KeyAlgorithm::EcdsaNistP384,
            KeyAlgorithm::EcdsaNistP521,
            KeyAlgorithm::RsaSha256,
            KeyAlgorithm::RsaSha512,
            KeyAlgorithm::Rsa,
            KeyAlgorithm::Dsa,
        ],
        cipher: seq![
            CipherAlgorithm::Chacha20Poly1305,
            CipherAlgorithm::Aes256Gcm,
            CipherAlgorithm::Aes256Ctr,
            CipherAlgorithm::Aes256Cbc,
            CipherAlgorithm::Aes192Ctr,
            CipherAlgorithm::Aes192Cbc,
            CipherAlgorithm::Aes128Ctr,
            CipherAlgorithm::Aes128Cbc,
            CipherAlgorithm::TripleDesCbc,
        ],
        mac: seq![
            MacAlgorithm::HmacSha512Etm,
            MacAlgorithm::HmacSha256Etm,
            MacAlgorithm::HmacSha512,
            MacAlgorithm::HmacSha256,
            MacAlgorithm::HmacSha1Etm,
            MacAlgorithm::HmacSha1,
        ],
    }
}

/// The algorithms to prefer on a hop: the legacy allowlist where the target
/// allows insecure algorithms, else `None` for the client's secure
/// defaults.
pub fn ssh_algorithm_policy(allow_insecure_algos: bool) -> (p: Option<AlgorithmLists>)
    ensures
        !allow_insecure_algos ==> p is None,
        allow_insecure_algos ==> (p matches Some(l) && l@ == spec_legacy_allowlist()),
{
    if !allow_insecure_algos {
        return None;
    }
    let kex = vec![
        KexAlgorithm::MlKem768X25519Sha256,
        KexAlgorithm::Curve25519,
        KexAlgorithm::Curve25519PreRfc8731,
        KexAlgorithm::EcdhSha2Nistp256,
        KexAlgorithm::EcdhSha2Nistp384,
        KexAlgorithm::EcdhSha2Nistp521,
        KexAlgorithm::DhG16Sha512,
        KexAlgorithm::DhG14Sha256,
        KexAlgorithm::DhGexSha256,
        KexAlgorithm::DhG1Sha1,
        KexAlgorithm::ExtensionSupportAsClient,
        KexAlgorithm::ExtensionSupportAsServer,
        KexAlgorithm::ExtensionOpensshStrictKexAsClient,
        KexAlgorithm::ExtensionOpensshStrictKexAsServer,
    ];
    let key = vec![
        KeyAlgorithm::Ed25519,
        KeyAlgorithm::EcdsaNistP256,
        KeyAlgorithm::EcdsaNistP384,
        KeyAlgorithm::EcdsaNistP521,
        KeyAlgorithm::RsaSha256,
        KeyAlgorithm::RsaSha512,
        KeyAlgorithm::Rsa,
        KeyAlgorithm::Dsa,
    ];
    let cipher = vec![
        CipherAlgorithm::Chacha20Poly1305,
        CipherAlgorithm::Aes256Gcm,
        CipherAlgorithm::Aes256Ctr,
        CipherAlgorithm::Aes256Cbc,
        CipherAlgorithm::Aes192Ctr,
        CipherAlgorithm::Aes192Cbc,
        CipherAlgorithm::Aes128Ctr,
        CipherAlgorithm::Aes128Cbc,
        CipherAlgorithm::TripleDesCbc,
    ];
    let mac = vec![
        MacAlgorithm::HmacSha512Etm,
        MacAlgorithm::HmacSha256Etm,
        MacAlgorithm::HmacSha512,
        MacAlgorithm::HmacSha256,
        MacAlgorithm::HmacSha1Etm,
        MacAlgorithm::HmacSha1,
    ];
    let l = AlgorithmLists { kex, key, cipher, mac };
    assert(l@.kex == spec_legacy_allowlist().kex);
    assert(l@.key == spec_legacy_allowlist().key);
    assert(l@.cipher == spec_legacy_allowlist().cipher);
    assert(l@.mac == spec_legacy_allowlist().mac);
    Some(l)
}

/// The Diffie-Hellman group-exchange bounds (minimum, preferred, maximum
/// group size in bits) of a hop: widened to accept 2048-bit groups where the
/// target allows insecure algorithms, else `None` for the client's
/// defaults.
pub fn ssh_gex_bounds(allow_insecure_algos: bool) -> (r: Option<(usize, usize, usize)>)
    ensures
        r == (if allow_insecure_algos {
            Some((2048usize, 2048usize, 8192usize))
        } else {
            None
        }),
{
    if allow_insecure_algos {
        Some((2048, 2048, 8192))
    } else {
        None
    }
}

/// The legacy allowlist offers every algorithm of each kind exactly once:
/// every key exchange (SHA-1 Diffie-Hellman and group exchange included),
/// every host-key algorithm (SHA-1 RSA and DSA included), every cipher
/// (CBC and 3DES included) and every MAC (SHA-1 included). The legacy
/// entries come after the modern ones: SHA-1 RSA and DSA are the last two
/// host-key algorithms, 3DES the last cipher, the SHA-1 MACs the last two
/// MACs, and Ed25519 and ChaCha20-Poly1305 are preferred first.
pub proof fn law_legacy_allowlist_offers_everything()
    ensures
        ({
            let l = spec_legacy_allowlist();
            &&& forall|k: KexAlgorithm| #[trigger] l.kex.contains(k)
            &&& forall|k: KeyAlgorithm| #[trigger] l.key.contains(k)
            &&& forall|c: CipherAlgorithm| #[trigger] l.cipher.contains(c)
            &&& forall|m: MacAlgorithm| #[trigger] l.mac.contains(m)
            &&& l.kex.no_duplicates()
            &&& l.key.no_duplicates()
            &&& l.cipher.no_duplicates()
            &&& l.mac.no_duplicates()
            &&& l.key.len() >= 2 && l.key[l.key.len() - 2] == KeyAlgorithm::Rsa
                && l.key.last() == KeyAlgorithm::Dsa
            &&& l.cipher.last() == CipherAlgorithm::TripleDesCbc
            &&& l.mac.len() >= 2 && l.mac[l.mac.len() - 2] == MacAlgorithm::HmacSha1Etm
                && l.mac.last() == MacAlgorithm::HmacSha1
            &&& l.key[0] == KeyAlgorithm::Ed25519
            &&& l.cipher[0] == CipherAlgorithm::Chacha20Poly1305
        }),
{
    let l = spec_legacy_allowlist();
    assert forall|k: KexAlgorithm| #[trigger] l.kex.contains(k) by {
        let i: int = match k {
            KexAlgorithm::MlKem768X25519Sha256 => 0,
            KexAlgorithm::Curve25519 => 1,
            KexAlgorithm::Curve25519PreRfc8731 => 2,
            KexAlgorithm::EcdhSha2Nistp256 => 3,
            KexAlgorithm::EcdhSha2Nistp384 => 4,
            KexAlgorithm::EcdhSha2Nistp521 => 5,
            KexAlgorithm::DhG16Sha512 => 6,
            KexAlgorithm::DhG14Sha256 => 7,
            KexAlgorithm::DhGexSha256 => 8,
            KexAlgorithm::DhG1Sha1 => 9,
            KexAlgorithm::ExtensionSupportAsClient => 10,
            KexAlgorithm::ExtensionSupportAsServer => 11,
            KexAlgorithm::ExtensionOpensshStrictKexAsClient => 12,
            KexAlgorithm::ExtensionOpensshStrictKexAsServer => 13,
        };
        assert(l.kex[i] == k);
    }
    assert forall|k: KeyAlgorithm| #[trigger] l.key.contains(k) by {
        let i: int = match k {
            KeyAlgorithm::Ed25519 => 0,
            KeyAlgorithm::EcdsaNistP256 => 1,
            KeyAlgorithm::EcdsaNistP384 => 2,
            KeyAlgorithm::EcdsaNistP521 => 3,
            KeyAlgorithm::RsaSha256 => 4,
            KeyAlgorithm::RsaSha512 => 5,
            KeyAlgorithm::Rsa => 6,
            KeyAlgorithm::Dsa => 7,
        };
        assert(l.key[i] == k);
    }
    assert forall|c: CipherAlgorithm| #[trigger] l.cipher.contains(c) by {
        let i: int = match c {
            CipherAlgorithm::Chacha20Poly1305 => 0,
            CipherAlgorithm::Aes256Gcm => 1,
            CipherAlgorithm::Aes256Ctr => 2,
            CipherAlgorithm::Aes256Cbc => 3,
            CipherAlgorithm::Aes192Ctr => 4,
            CipherAlgorithm::Aes192Cbc => 5,
            CipherAlgorithm::Aes128Ctr => 6,
            CipherAlgorithm::Aes128Cbc => 7,
            CipherAlgorithm::TripleDesCbc => 8,
        };
        assert(l.cipher[i] == c);
    }
    assert forall|m: MacAlgorithm| #[trigger] l.mac.contains(m) by {
        let i: int = match m {
            MacAlgorithm::HmacSha512Etm => 0,
            MacAlgorithm::HmacSha256Etm => 1,
            MacAlgorithm::HmacSha512 => 2,
            MacAlgorithm::HmacSha256 => 3,
            MacAlgorithm::HmacSha1Etm => 4,
            MacAlgorithm::HmacSha1 => 5,
        };
        assert(l.mac[i] == m);
    }
}

} // verus!
