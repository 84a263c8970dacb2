use vstd::prelude::*;

use base64::Engine;
use rustls_pki_types::pem::PemObject;
use x509_parser::nom::Parser;

verus! {

/// Signature algorithm identifier of RSA with SHA-256.
pub const RS256_OID: &'static str = "1.2.840.113549.1.1.11";

/// Signature algorithm identifier of RSA with SHA-384.
pub const RS384_OID: &'static str = "1.2.840.113549.1.1.12";

/// Signature algorithm identifier of RSA with SHA-512.
pub const RS512_OID: &'static str = "1.2.840.113549.1.1.13";

/// The RSA signing algorithms that a converted key can be tagged with.
#[derive(Debug, Clone, Copy, PartialEq, Eq, Structural)]
pub enum RsaAlgorithm {
    RS256,
    RS384,
    RS512,
}

/// The DER bytes of the first certificate found in the PEM text `pem`, or
/// `None` where it holds none that decodes.
pub uninterp spec fn pem_certificate_der(pem: Seq<char>) -> Option<Seq<u8>>;

/// What parsing the DER certificate `der` yields: `None` where it does not
/// parse, else the dotted identifier of its signature algorithm and, where its
/// public key parses as RSA, that key's modulus and exponent bytes.
pub uninterp spec fn parsed_certificate(der: Seq<u8>) -> Option<
    (Seq<char>, Option<(Seq<u8>, Seq<u8>)>),
>;

/// The unpadded URL-safe base64 text of `bytes`.
pub uninterp spec fn base64url_of(bytes: Seq<u8>) -> Seq<char>;

/// A certificate, as DER bytes.
pub struct PemCert(pub Vec<u8>);

/// Certificates keyed by key id.
pub struct PemMap(pub Vec<(String, PemCert)>);

/// An RSA public key converted into key-set form: its key id, the algorithm
/// it signs with, and the base64url text of its modulus and exponent.
pub struct RsaJwk {
    pub key_id: String,
    pub algorithm: RsaAlgorithm,
    pub n: String,
    pub e: String,
}

/// The model of a converted key: key id, algorithm, modulus, exponent.
pub type JwkModel = (Seq<char>, RsaAlgorithm, Seq<char>, Seq<char>);

impl View for RsaJwk {
    type V = JwkModel;

    open spec fn view(&self) -> JwkModel {
        (self.key_id@, self.algorithm, self.n@, self.e@)
    }
}

impl View for PemMap {
    type V = Seq<(Seq<char>, Seq<u8>)>;

    open spec fn view(&self) -> Seq<(Seq<char>, Seq<u8>)> {
        self.0@.map_values(|entry: (String, PemCert)| (entry.0@, entry.1.0@))
    }
}

/// The algorithm named by a signature algorithm identifier, where it is one
/// of the supported RSA ones.
pub open spec fn algorithm_of_oid(oid: Seq<char>) -> Option<RsaAlgorithm> {
    if oid == RS256_OID@ {
        Some(RsaAlgorithm::RS256)
    } else if oid == RS384_OID@ {
        Some(RsaAlgorithm::RS384)
    } else if oid == RS512_OID@ {
        Some(RsaAlgorithm::RS512)
    } else {
        None
    }
}

/// The key that the certificate `der` under key id `kid` converts to, or
/// `None` where the certificate does not parse, its signature algorithm is
/// not a supported one, or its public key is not RSA.
pub open spec fn jwk_of(kid: Seq<char>, der: Seq<u8>) -> Option<JwkModel> {
    match parsed_certificate(der) {
        Some((oid, Some((modulus, exponent)))) => match algorithm_of_oid(oid) {
            Some(alg) => Some((kid, alg, base64url_of(modulus), base64url_of(exponent))),
            None => None,
        },
        _ => None,
    }
}

/// The keys that `entries` convert to, in order, dropping those that do not
/// convert.
pub open spec fn jwks_of(entries: Seq<(Seq<char>, Seq<u8>)>) -> Seq<JwkModel>
    decreases entries.len(),
{
    if entries.len() == 0 {
        Seq::empty()
    } else {
        let rest = jwks_of(entries.drop_last());
        match jwk_of(entries.last().0, entries.last().1) {
            Some(j) => rest.push(j),
            None => rest,
        }
    }
}

/// Relies on rustls_pki_types's `CertificateDer::from_pem_slice`: decodes the
/// first certificate of a PEM text.
#[verifier::external_body]
fn der_from_pem(pem: &str) -> (r: Option<Vec<u8>>)
    ensures
        r matches Some(d) ==> pem_certificate_der(pem@) == Some(d@),
        r is None ==> pem_certificate_der(pem@) is None,
{
    rustls_pki_types::CertificateDer::from_pem_slice(pem.as_bytes()).ok().map(|c| c.to_vec())
}

/// Relies on x509_parser's `X509CertificateParser::parse` (without deep
/// parsing of extensions), `Oid::to_id_string` and
/// `SubjectPublicKeyInfo::parsed`: reads a certificate's signature algorithm
/// and RSA public key.
#[verifier::external_body]
fn parse_certificate(der: &Vec<u8>) -> (r: Option<(String, Option<(Vec<u8>, Vec<u8>)>)>)
    ensures
        r matches Some((oid, key)) ==> parsed_certificate(der@) == Some(
            (
                oid@,
                match key {
                    Some((n, e)) => Some((n@, e@)),
                    None => None,
                },
            ),
        ),
        r is None ==> parsed_certificate(der@) is None,
{
    let mut parser = x509_parser::certificate::X509CertificateParser::new()
        .with_deep_parse_extensions(false);
    let (_, cert) = parser.parse(der.as_slice()).ok()?;
    let key = match cert.public_key().parsed() {
        Ok(x509_parser::public_key::PublicKey::RSA(rsa)) => Some(
            (rsa.modulus.to_vec(), rsa.exponent.to_vec()),
        ),
        _ => None,
    };
    Some((cert.signature.oid().to_id_string(), key))
}

/// Relies on base64's `BASE64_URL_SAFE_NO_PAD.encode`: URL-safe base64
/// without padding.
#[verifier::external_body]
fn base64url(bytes: &Vec<u8>) -> (r: String)
    ensures
        r@ == base64url_of(bytes@),
{
    base64::prelude::BASE64_URL_SAFE_NO_PAD.encode(bytes)
}

impl PemCert {
    /// The first certificate of the PEM text `pem`, or `None` where it holds
    /// no certificate that decodes.
    pub fn from_pem(pem: &str) -> (r: Option<PemCert>)
        ensures
            r matches Some(c) ==> pem_certificate_der(pem@) == Some(c.0@),
            r is None ==> pem_certificate_der(pem@) is None,
    {
        match der_from_pem(pem) {
            Some(d) => Some(PemCert(d)),
            None => None,
        }
    }
}

/// The supported RSA algorithm named by the identifier `oid`, if any.
pub fn algorithm_for_oid(oid: &String) -> (r: Option<RsaAlgorithm>)
    ensures
        r == algorithm_of_oid(oid@),
{
    let rs256 = RS256_OID.to_owned();
    let rs384 = RS384_OID.to_owned();
    let rs512 = RS512_OID.to_owned();
    if *oid == rs256 {
        Some(RsaAlgorithm::RS256)
    } else if *oid == rs384 {
        Some(RsaAlgorithm::RS384)
    } else if *oid == rs512 {
        Some(RsaAlgorithm::RS512)
    } else {
        None
    }
}

/// The key that a parsed certificate under key id `kid` converts to: `None`
/// unless the signature algorithm is a supported RSA one and the public key
/// is RSA.
pub fn jwk_from_parsed(kid: &String, oid: &String, key: &Option<(Vec<u8>, Vec<u8>)>) -> (r: Option<
    RsaJwk,
>)
    ensures
        r matches Some(j) ==> (key matches Some(kb) && algorithm_of_oid(oid@) == Some(j.algorithm)
            && j@ == (kid@, j.algorithm, base64url_of(kb.0@), base64url_of(kb.1@))),
        r is None <==> key is None || algorithm_of_oid(oid@) is None,
{
    let algorithm = match algorithm_for_oid(oid) {
        Some(a) => a,
        None => return None,
    };
    match key {
        Some((modulus, exponent)) => {
            let n = base64url(modulus);
            let e = base64url(exponent);
            Some(RsaJwk { key_id: kid.clone(), algorithm, n, e })
        },
        None => None,
    }
}

impl PemMap {
    /// Converts each certificate into an RSA key of the key set, keeping the
    /// entries' order; an entry whose certificate does not parse, whose
    /// signature algorithm is not RSA with SHA-256, SHA-384 or SHA-512, or
    /// whose public key is not RSA is dropped.
    pub fn into_rsa_jwk_set(self) -> (r: Vec<RsaJwk>)
        ensures
            r@.map_values(|j: RsaJwk| j@) == jwks_of(self@),
    {
        let mut out: Vec<RsaJwk> = Vec::new();
        let mut i: usize = 0;
        while i < self.0.len()
            invariant
                i <= self.0@.len(),
                out@.map_values(|j: RsaJwk| j@) == jwks_of(self@.take(i as int)),
            decreases self.0@.len() - i,
        {
            let entry = &self.0[i];
            let ghost before = out@;
            proof {
                assert(self@.take(i as int + 1).drop_last() =~= self@.take(i as int));
            }
            match parse_certificate(&entry.1.0) {
                Some((oid, key)) => {
                    match jwk_from_parsed(&entry.0, &oid, &key) {
                        Some(j) => {
                            out.push(j);
                            assert(out@.map_values(|j: RsaJwk| j@) =~= before.map_values(
                                |j: RsaJwk| j@,
                            ).push(out@.last()@));
                        },
                        None => {},
                    }
                },
                None => {},
            }
            i = i + 1;
        }
        assert(self@.take(self.0@.len() as int) =~= self@);
        out
    }
}


/// When every certificate converts, the key set has one key per entry, in
/// order, each under its entry's key id; when a certificate does not parse,
/// its entry is omitted and the others are converted as before.
pub proof fn lemma_conversion_keeps_valid_drops_unparsable(
    entries: Seq<(Seq<char>, Seq<u8>)>,
    bad: (Seq<char>, Seq<u8>),
)
    ensures
        (forall|i: int| 0 <= i < entries.len() ==> jwk_of(entries[i].0, entries[i].1) is Some)
            ==> {
            &&& jwks_of(entries).len() == entries.len()
            &&& forall|i: int|
                0 <= i < entries.len() ==> jwks_of(entries)[i] == jwk_of(
                    entries[i].0,
                    entries[i].1,
                )->0 && jwks_of(entries)[i].0 == entries[i].0
        },
        parsed_certificate(bad.1) is None ==> jwks_of(entries.push(bad)) == jwks_of(entries),
{
    assert(entries.push(bad).drop_last() =~= entries);
    if forall|i: int| 0 <= i < entries.len() ==> jwk_of(entries[i].0, entries[i].1) is Some {
        lemma_all_convert(entries);
    }
}

proof fn lemma_all_convert(entries: Seq<(Seq<char>, Seq<u8>)>)
    requires
        forall|i: int| 0 <= i < entries.len() ==> jwk_of(entries[i].0, entries[i].1) is Some,
    ensures
        jwks_of(entries).len() == entries.len(),
        forall|i: int|
            0 <= i < entries.len() ==> jwks_of(entries)[i] == jwk_of(entries[i].0, entries[i].1)->0
                && jwks_of(entries)[i].0 == entries[i].0,
    decreases entries.len(),
{
    if entries.len() > 0 {
        let init = entries.drop_last();
        assert forall|i: int| 0 <= i < init.len() implies jwk_of(init[i].0, init[i].1) is Some by {
            assert(init[i] == entries[i]);
        }
        lemma_all_convert(init);
    }
}

} // verus!
