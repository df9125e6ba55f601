//! Trusted declarations for the outside crates that supply the cryptography
//! and the PEM codec: `rcgen` (key generation, signing, certificate
//! parsing), `pem` (PEM armor) and `time` (the wall clock and the validity
//! timestamps).
//!
//! Everything in this module is believed, not verified: each item's contract
//! states only what the named outside function's source or documentation
//! shows.

use vstd::prelude::*;

use crate::builder::{CertSigAlgo, ExtendedKeyUsage};
use crate::ip::IpAddress;
use crate::der::Extension;

verus! {

#[verifier::external_type_specification]
#[verifier::external_body]
pub struct ExCertificateParams(rcgen::CertificateParams);

#[verifier::external_type_specification]
#[verifier::external_body]
pub struct ExCertificate(rcgen::Certificate);

#[verifier::external_type_specification]
#[verifier::external_body]
pub struct ExKeyPair(rcgen::KeyPair);

#[verifier::external_type_specification]
#[verifier::external_body]
pub struct ExRcgenError(rcgen::Error);

#[verifier::external_type_specification]
#[verifier::external_body]
pub struct ExPemError(pem::PemError);

/// The text produced by `pem::encode` (64-column base64, CRLF line endings)
/// for a block with the given tag and DER contents.
pub uninterp spec fn pem_text(tag: Seq<char>, der: Seq<u8>) -> Seq<char>;

/// The text produced by `pem::encode_config` with LF line endings (the
/// configuration rcgen itself serializes with) for a block with the given
/// tag and DER contents.
pub uninterp spec fn pem_text_lf(tag: Seq<char>, der: Seq<u8>) -> Seq<char>;

/// The DER contents of the PEM block that `pem::parse` finds in the given
/// text, or `None` where the text holds no well-formed block.
pub uninterp spec fn pem_block_der(s: Seq<char>) -> Option<Seq<u8>>;

/// Whether every character of `s` lies in the IA5 (seven-bit) range, the
/// condition under which rcgen's `Ia5String` accepts a DNS name.
pub open spec fn ia5_ok(s: Seq<char>) -> bool {
    vstd::utf8::is_ascii_chars(s)
}

/// The earliest unix timestamp `time::OffsetDateTime` can hold (year -9999).
pub open spec fn min_unix_timestamp() -> int {
    -377705116800
}

/// The latest unix timestamp `time::OffsetDateTime` can hold (year 9999).
pub open spec fn max_unix_timestamp() -> int {
    253402300799
}

/// A validity timestamp the signing backend can serialize: from 1970 up to
/// year 9999. The backend's date writer rejects nothing itself but panics
/// on negative years, so the library only ever hands it this window.
pub open spec fn serializable_timestamp(t: int) -> bool {
    0 <= t <= max_unix_timestamp()
}

/// Relies on `pem::encode` over `pem::Pem::new("CERTIFICATE", ..)`: the text
/// is a pure function of the DER bytes, and `pem::parse` recovers exactly
/// those bytes from it.
#[verifier::external_body]
pub(crate) fn pem_encode_cert(der: &Vec<u8>) -> (r: String)
    ensures
        r@ == pem_text("CERTIFICATE"@, der@),
        pem_block_der(r@) == Some(der@),
{
    pem::encode(&pem::Pem::new("CERTIFICATE", der.clone()))
}

/// Relies on `pem::encode_config` with LF line endings over
/// `pem::Pem::new("CERTIFICATE", ..)`, the way rcgen renders a signed
/// certificate; `pem::parse` recovers exactly the DER bytes from the text.
#[verifier::external_body]
pub(crate) fn pem_encode_cert_lf(der: &Vec<u8>) -> (r: String)
    ensures
        r@ == pem_text_lf("CERTIFICATE"@, der@),
        pem_block_der(r@) == Some(der@),
{
    let config = pem::EncodeConfig::new().set_line_ending(pem::LineEnding::LF);
    pem::encode_config(&pem::Pem::new("CERTIFICATE", der.clone()), config)
}

/// Relies on `pem::encode_config` with LF line endings over
/// `pem::Pem::new("PRIVATE KEY", ..)`, the way rcgen's
/// `KeyPair::serialize_pem` renders a key; `pem::parse` recovers exactly the
/// DER bytes from the text.
#[verifier::external_body]
pub(crate) fn pem_encode_key(der: &Vec<u8>) -> (r: String)
    ensures
        r@ == pem_text_lf("PRIVATE KEY"@, der@),
        pem_block_der(r@) == Some(der@),
{
    let config = pem::EncodeConfig::new().set_line_ending(pem::LineEnding::LF);
    pem::encode_config(&pem::Pem::new("PRIVATE KEY", der.clone()), config)
}

/// Relies on `pem::parse`: it deterministically finds one PEM block in the
/// text and base64-decodes its contents, failing on malformed framing.
#[verifier::external_body]
pub(crate) fn pem_parse_block(s: &str) -> (r: Result<Vec<u8>, pem::PemError>)
    ensures
        r matches Ok(d) ==> pem_block_der(s@) == Some(d@),
        r is Err ==> pem_block_der(s@) is None,
{
    pem::parse(s).map(pem::Pem::into_contents)
}

/// Relies on `time::OffsetDateTime::now_utc` and `unix_timestamp`: the
/// current time, which always lies inside the representable range of
/// `OffsetDateTime`.
#[verifier::external_body]
pub(crate) fn now_unix() -> (r: i64)
    ensures
        min_unix_timestamp() <= r as int <= max_unix_timestamp(),
{
    time::OffsetDateTime::now_utc().unix_timestamp()
}

/// Relies on `rcgen::KeyPair::generate_for` with the PKCS_ECDSA_P256_SHA256
/// or PKCS_ED25519 algorithm, and on `KeyPair::serialize_der`, which returns
/// the generated key's PKCS#8 document. The key is random, so nothing is
/// promised of the result.
#[verifier::external_body]
pub(crate) fn keypair_generate(algo: CertSigAlgo) -> (r: Result<
    (rcgen::KeyPair, Vec<u8>),
    rcgen::Error,
>)
{
    let alg = match algo {
        CertSigAlgo::EcDsa => &rcgen::PKCS_ECDSA_P256_SHA256,
        CertSigAlgo::ED25519 => &rcgen::PKCS_ED25519,
    };
    let key = rcgen::KeyPair::generate_for(alg)?;
    let der = key.serialize_der();
    Ok((key, der))
}

/// Relies on `rcgen::KeyPair::from_pem` and `KeyPair::serialize_der`:
/// `from_pem` keeps the PEM block's DER contents verbatim as the key's
/// PKCS#8 document, and `serialize_der` returns that document.
#[verifier::external_body]
pub(crate) fn keypair_from_pem(s: &str) -> (r: Result<(rcgen::KeyPair, Vec<u8>), rcgen::Error>)
    ensures
        r matches Ok(kd) ==> pem_block_der(s@) == Some(kd.1@),
{
    let key = rcgen::KeyPair::from_pem(s)?;
    let der = key.serialize_der();
    Ok((key, der))
}

/// Relies on `rcgen::CertificateParams::default`: fresh parameters with no
/// subject alternative names, no extensions and no CA marking.
#[verifier::external_body]
pub(crate) fn params_default() -> (r: rcgen::CertificateParams) {
    rcgen::CertificateParams::default()
}

/// Relies on `time::OffsetDateTime::from_unix_timestamp`, which succeeds
/// exactly on timestamps inside the representable range; on success both
/// validity bounds are stored in the parameters. Timestamps before 1970 are
/// refused here as well: rcgen's date writer panics on a negative year, so
/// no parameters with such a window may ever reach the signer.
#[verifier::external_body]
pub(crate) fn params_set_validity(
    p: &mut rcgen::CertificateParams,
    not_before: i64,
    not_after: i64,
) -> (r: bool)
    ensures
        r == (serializable_timestamp(not_before as int) && serializable_timestamp(
            not_after as int,
        )),
{
    if not_before < 0 || not_after < 0 {
        return false;
    }
    match (
        time::OffsetDateTime::from_unix_timestamp(not_before),
        time::OffsetDateTime::from_unix_timestamp(not_after),
    ) {
        (Ok(nb), Ok(na)) => {
            p.not_before = nb;
            p.not_after = na;
            true
        },
        _ => false,
    }
}

/// Relies on `rcgen::Ia5String::try_from`, which accepts exactly the
/// seven-bit strings, and pushes the DNS name onto the subject alternative
/// names.
#[verifier::external_body]
pub(crate) fn params_push_san_dns(p: &mut rcgen::CertificateParams, name: &str)
    requires
        ia5_ok(name@),
{
    if let Ok(ia5) = rcgen::Ia5String::try_from(name) {
        p.subject_alt_names.push(rcgen::SanType::DnsName(ia5));
    }
}

/// Relies on `rcgen::SanType::IpAddress`, which carries the address value;
/// pushes the address onto the subject alternative names.
#[verifier::external_body]
pub(crate) fn params_push_san_ip(p: &mut rcgen::CertificateParams, ip: &IpAddress) {
    let addr = match *ip {
        IpAddress::V4(a, b, c, d) => core::net::IpAddr::V4(core::net::Ipv4Addr::new(a, b, c, d)),
        IpAddress::V6(a, b, c, d, e, f, g, h) => core::net::IpAddr::V6(
            core::net::Ipv6Addr::new(a, b, c, d, e, f, g, h),
        ),
    };
    p.subject_alt_names.push(rcgen::SanType::IpAddress(addr));
}

/// Relies on `rcgen::DistinguishedName::push`, which keeps the insertion
/// order of the three attribute types: Country, Organization, CommonName.
#[verifier::external_body]
pub(crate) fn params_set_dn(
    p: &mut rcgen::CertificateParams,
    country: &str,
    org: &str,
    cn: &str,
) {
    let mut dn = rcgen::DistinguishedName::new();
    dn.push(rcgen::DnType::CountryName, country);
    dn.push(rcgen::DnType::OrganizationName, org);
    dn.push(rcgen::DnType::CommonName, cn);
    p.distinguished_name = dn;
}

/// Relies on `rcgen::KeyIdMethod::Sha512`: key identifiers are derived as a
/// SHA-512 digest of the subject public key.
#[verifier::external_body]
pub(crate) fn params_set_key_id_sha512(p: &mut rcgen::CertificateParams) {
    p.key_identifier_method = rcgen::KeyIdMethod::Sha512;
}

/// Relies on `rcgen::ExtendedKeyUsagePurpose`: pushes the matching purpose
/// onto the extended key usages.
#[verifier::external_body]
pub(crate) fn params_push_eku(p: &mut rcgen::CertificateParams, eku: &ExtendedKeyUsage) {
    let purpose = match eku {
        ExtendedKeyUsage::Any => rcgen::ExtendedKeyUsagePurpose::Any,
        ExtendedKeyUsage::ClientAuth => rcgen::ExtendedKeyUsagePurpose::ClientAuth,
        ExtendedKeyUsage::ServerAuth => rcgen::ExtendedKeyUsagePurpose::ServerAuth,
    };
    p.extended_key_usages.push(purpose);
}

/// Relies on `rcgen::IsCa::Ca` with `BasicConstraints::Constrained`: marks
/// the certificate as a CA with the given path length constraint.
#[verifier::external_body]
pub(crate) fn params_set_is_ca(p: &mut rcgen::CertificateParams, path_len: u8) {
    p.is_ca = rcgen::IsCa::Ca(rcgen::BasicConstraints::Constrained(path_len));
}

/// Relies on `rcgen::CustomExtension::from_oid_content` and
/// `set_criticality`: the extension is stored with exactly the given OID,
/// body and criticality.
#[verifier::external_body]
pub(crate) fn params_push_custom_extension(p: &mut rcgen::CertificateParams, ext: &Extension) {
    let mut ce = rcgen::CustomExtension::from_oid_content(ext.oid.as_slice(), ext.content.clone());
    ce.set_criticality(ext.critical);
    p.custom_extensions.push(ce);
}

/// Relies on `rcgen::CertificateParams::self_signed` and
/// `Certificate::der`: signs the parameters with their own key and returns
/// the certificate with its DER bytes. Signing may draw randomness, so
/// nothing is promised of the bytes. rcgen's date writer panics on a
/// negative validity year; no parameters of this crate carry one, since
/// `params_set_validity` floors the window at 1970 and a parsed certificate
/// (`params_from_ca_cert_pem`) always holds four-digit years.
#[verifier::external_body]
pub(crate) fn self_sign(p: &rcgen::CertificateParams, key: &rcgen::KeyPair) -> (r: Result<
    (rcgen::Certificate, Vec<u8>),
    rcgen::Error,
>)
{
    let cert = p.clone().self_signed(key)?;
    let der = cert.der().to_vec();
    Ok((cert, der))
}

/// Relies on `rcgen::CertificateParams::signed_by` over the leaf's own
/// parameters (`Certificate::params`), with the issuer's certificate and
/// key, and on `Certificate::der`. Signing may draw randomness, so nothing
/// is promised of the bytes.
#[verifier::external_body]
pub(crate) fn sign_with_issuer(
    leaf: &rcgen::Certificate,
    leaf_key: &rcgen::KeyPair,
    issuer: &rcgen::Certificate,
    issuer_key: &rcgen::KeyPair,
) -> (r: Result<Vec<u8>, rcgen::Error>) {
    let cert = leaf.params().clone().signed_by(leaf_key, issuer, issuer_key)?;
    Ok(cert.der().to_vec())
}

/// Relies on `rcgen::CertificateParams::from_ca_cert_pem`, which parses a
/// CA certificate's subject, validity, extensions and CA marking back into
/// parameters, failing on text it cannot interpret.
#[verifier::external_body]
pub(crate) fn params_from_ca_cert_pem(s: &str) -> (r: Result<
    rcgen::CertificateParams,
    rcgen::Error,
>)
{
    rcgen::CertificateParams::from_ca_cert_pem(s)
}

} // verus!
