//! The server's TLS credentials: a certificate and its private key, both in
//! DER form, taken from the local cache or generated on first start.
use vstd::prelude::*;
use vstd::string::StringExecFns;

verus! {

/// What reading one cached file gave.
#[derive(Debug)]
pub enum CacheRead {
    /// The file's bytes.
    Read(Vec<u8>),
    /// There is no such file.
    NotFound,
    /// The file could not be read for another reason.
    Failed,
}

/// Where the server's credentials come from.
#[derive(Debug)]
pub enum CertificateSource {
    /// The cached certificate and key.
    Stored {
        /// Certificate (DER).
        cert: Vec<u8>,
        /// Private key (DER).
        key: Vec<u8>,
    },
    /// There are none yet: a self-signed certificate is generated.
    Generate,
    /// The cache could not be read: the server does not start.
    Fail,
}

/// Picks the source of the credentials from what reading the cached
/// certificate and key gave. The key is only looked at once the certificate
/// was read: a missing certificate, or a read certificate with a missing key,
/// means generating new ones; any other failure to read is a failure.
pub fn certificate_source(cert: CacheRead, key: CacheRead) -> (res: CertificateSource)
    ensures
        match (cert, key) {
            (CacheRead::Read(c), CacheRead::Read(k)) => res == CertificateSource::Stored { cert: c, key: k },
            (CacheRead::NotFound, _) => res is Generate,
            (CacheRead::Read(_), CacheRead::NotFound) => res is Generate,
            _ => res is Fail,
        },
{
    match cert {
        CacheRead::Read(c) => match key {
            CacheRead::Read(k) => CertificateSource::Stored { cert: c, key: k },
            CacheRead::NotFound => CertificateSource::Generate,
            CacheRead::Failed => CertificateSource::Fail,
        },
        CacheRead::NotFound => CertificateSource::Generate,
        CacheRead::Failed => CertificateSource::Fail,
    }
}

/// The tag of the first element inside a DER `SEQUENCE`: the byte that
/// follows the outer tag `0x30` and its length (short form, or long form
/// with the number of length bytes in the low bits).
pub open spec fn der_first_inner_tag(der: Seq<u8>) -> Option<u8> {
    if der.len() >= 2 && der[0] == 0x30u8 {
        let length = der[1];
        let start: int = if length < 0x80u8 {
            2
        } else {
            2 + (length - 0x80u8)
        };
        if start < der.len() {
            Some(der[start])
        } else {
            None
        }
    } else {
        None
    }
}

/// An X.509 certificate in DER: a `SEQUENCE` whose first element, the
/// to-be-signed certificate, is itself a `SEQUENCE` (tag `0x30`).
pub open spec fn is_certificate_der(der: Seq<u8>) -> bool {
    der_first_inner_tag(der) == Some(0x30u8)
}

/// A PKCS#8 private key in DER: a `SEQUENCE` whose first element, the
/// version, is an `INTEGER` (tag `0x02`).
pub open spec fn is_private_key_der(der: Seq<u8>) -> bool {
    der_first_inner_tag(der) == Some(0x02u8)
}

/// A certificate and a private key are told apart by their DER: no bytes
/// are both, so credentials with the two swapped are never taken for the
/// right ones.
pub proof fn law_certificate_and_key_differ(der: Seq<u8>)
    ensures
        !(is_certificate_der(der) && is_private_key_der(der)),
{
}

/// Generates a self-signed certificate for `names` with
/// `rcgen::generate_simple_self_signed`, and gives it and its private key in
/// DER form (`serialize_der`, `serialize_private_key_der`); `None` where
/// rcgen reports an error. The key pair is freshly random, so the claim is
/// only on the shape of the bytes: the first is an X.509 certificate (rcgen
/// writes the signed `SEQUENCE` with the to-be-signed `SEQUENCE` first), the
/// second a PKCS#8 private key (documented as PKCS#8, whose `SEQUENCE` starts
/// with its version `INTEGER`).
#[verifier::external_body]
fn self_signed_certificate(names: Vec<String>) -> (res: Option<(Vec<u8>, Vec<u8>)>)
    ensures
        res matches Some((cert, key)) ==> is_certificate_der(cert@) && is_private_key_der(key@),
{
    let certificate = match rcgen::generate_simple_self_signed(names) {
        Ok(certificate) => certificate,
        Err(_) => return None,
    };
    let key = certificate.serialize_private_key_der();
    match certificate.serialize_der() {
        Ok(cert) => Some((cert, key)),
        Err(_) => None,
    }
}

/// The server's credentials.
#[derive(Debug)]
pub struct Credentials {
    /// Certificate (DER).
    pub cert: Vec<u8>,
    /// Private key (DER).
    pub key: Vec<u8>,
    /// Whether they were generated just now, and so must be written to the
    /// cache.
    pub generated: bool,
}

/// What the server starts with.
#[derive(Debug)]
pub enum CredentialsOutcome {
    /// These credentials.
    Ready(Credentials),
    /// The cache could not be read.
    ReadFailed,
    /// A certificate was needed and could not be generated.
    GenerationFailed,
}

/// Server config: the cached credentials where both files were read;
/// otherwise, where they are missing, a self-signed certificate for
/// `localhost`, marked to be written to the cache; a failed read fails.
pub fn server_credentials(cert: CacheRead, key: CacheRead) -> (res: CredentialsOutcome)
    ensures
        match (cert, key) {
            (CacheRead::Read(c), CacheRead::Read(k)) => res matches CredentialsOutcome::Ready(r) && r.cert@
                == c@ && r.key@ == k@ && !r.generated,
            (CacheRead::NotFound, _) => res is GenerationFailed || (res matches CredentialsOutcome::Ready(r)
                && r.generated && is_certificate_der(r.cert@) && is_private_key_der(r.key@)),
            (CacheRead::Read(_), CacheRead::NotFound) => res is GenerationFailed || (
            res matches CredentialsOutcome::Ready(r) && r.generated && is_certificate_der(r.cert@)
                && is_private_key_der(r.key@)),
            _ => res is ReadFailed,
        },
{
    match certificate_source(cert, key) {
        CertificateSource::Stored { cert, key } => CredentialsOutcome::Ready(
            Credentials { cert, key, generated: false },
        ),
        CertificateSource::Generate => {
            let names = vec![String::from_str("localhost")];
            match self_signed_certificate(names) {
                Some((cert, key)) => CredentialsOutcome::Ready(Credentials { cert, key, generated: true }),
                None => CredentialsOutcome::GenerationFailed,
            }
        },
        CertificateSource::Fail => CredentialsOutcome::ReadFailed,
    }
}

} // verus!
