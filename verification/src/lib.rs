//! Issuance of X.509 certificates: a self-signed certificate authority and
//! server or client leaf certificates signed by it, delivered as PEM text.
//!
//! The certificate parameters (subject, subject alternative names, validity
//! window, role-dependent extension set) are modelled as plain data and built
//! by verified code; the cryptographic signing and the PEM/DER codecs are
//! supplied by outside crates behind trusted declarations.

use vstd::prelude::*;

pub mod builder;
pub mod ca;
pub mod der;
pub mod error;
pub mod ip;
pub mod keys;
pub mod outside;

pub use builder::CertInfo;
pub use builder::CertSigAlgo;
pub use builder::CertType;
pub use ip::IpAddress;
pub use builder::SubjectAltName;
pub use builder::Cert;
pub use ca::CA;
pub use der::Extension;
pub use error::CertifyError;
pub use keys::KeyMaterial;

use crate::builder::days_in_range;
use crate::builder::domains_ia5;
use crate::builder::window_never_fits;
use crate::keys::resolve_key;
use crate::outside::pem_block_der;
use crate::outside::pem_text;
use crate::outside::pem_text_lf;

verus! {

/// Create a certificate authority: build CA-role parameters for the given
/// identity, obtain a keypair (parsed from `pem_str` when given, freshly
/// generated otherwise), self-sign, and return the CA's certificate PEM and
/// private key PEM. The certificate PEM parses back to the DER it armors;
/// when an existing key is supplied, the returned key PEM is its normalized
/// re-armoring — the same key document.
pub fn generate_ca(
    country: &str,
    org: &str,
    cn: &str,
    sig_algo: CertSigAlgo,
    pem_str: Option<&str>,
    days: Option<i64>,
) -> (r: Result<(String, String), CertifyError>)
    requires
        days_in_range(days),
    ensures
        r matches Ok(pair) ==> {
            &&& pem_block_der(pair.0@) matches Some(d) && pair.0@ == pem_text("CERTIFICATE"@, d)
            &&& pem_block_der(pair.1@) matches Some(kd2) && pair.1@ == pem_text_lf(
                "PRIVATE KEY"@,
                kd2,
            )
            &&& (pem_str matches Some(s) ==> pem_block_der(s@) matches Some(kd) && pair.1@
                == pem_text_lf("PRIVATE KEY"@, kd))
        },
        window_never_fits(days, CertType::CA) ==> r is Err,
        r matches Err(e) ==> e is RcgenError || e is InvalidCertificate,
{
    let info = CertInfo::new(
        Vec::new(),
        Vec::new(),
        country,
        org,
        cn,
        days,
        sig_algo,
    );
    let keypair = resolve_key(pem_str, sig_algo)?;
    let ghost key_der = keypair.der@;
    let ca = match info.ca_cert(keypair) {
        Ok(c) => c,
        Err(e) => {
            return Err(e);
        },
    };
    let cert_pem = match ca.serialize_pem() {
        Ok(s) => s,
        Err(e) => {
            return Err(e);
        },
    };
    let key_pem = ca.serialize_private_key_pem();
    Ok((cert_pem, key_pem))
}

/// Issue a leaf certificate signed by `ca`: build Server- or Client-role
/// parameters for the given identity and domain names — with subject
/// alternative names for the loopback addresses 127.0.0.1 and ::1 always
/// appended after the domain names — obtain a keypair, self-sign, then have
/// the CA sign the parameters. Returns the signed certificate's PEM and the
/// leaf's private key PEM; when an existing key is supplied, the returned
/// key PEM is its normalized re-armoring — the same key document.
pub fn generate_cert(
    ca: &CA,
    domains: Vec<String>,
    country: &str,
    org: &str,
    cn: &str,
    sig_algo: CertSigAlgo,
    pem_str: Option<&str>,
    is_client: bool,
    days: Option<i64>,
) -> (r: Result<(String, String), CertifyError>)
    requires
        days_in_range(days),
        domains_ia5(domains@.map_values(|d: String| d@)),
    ensures
        r matches Ok(pair) ==> {
            &&& pem_block_der(pair.0@) matches Some(d) && pair.0@ == pem_text_lf("CERTIFICATE"@, d)
            &&& pem_block_der(pair.1@) matches Some(kd2) && pair.1@ == pem_text_lf(
                "PRIVATE KEY"@,
                kd2,
            )
            &&& (pem_str matches Some(s) ==> pem_block_der(s@) matches Some(kd) && pair.1@
                == pem_text_lf("PRIVATE KEY"@, kd))
        },
        window_never_fits(
            days,
            if is_client {
                CertType::Client
            } else {
                CertType::Server
            },
        ) ==> r is Err,
        r matches Err(e) ==> e is RcgenError || e is InvalidCertificate,
{
    let mut ips: Vec<IpAddress> = Vec::new();
    ips.push(IpAddress::V4(127, 0, 0, 1));
    ips.push(IpAddress::V6(0, 0, 0, 0, 0, 0, 0, 1));
    let info = CertInfo {
        domain_names: domains,
        ip_address: ips,
        country: String::from_str(country),
        organization: String::from_str(org),
        common: String::from_str(cn),
        days,
        sig_algo,
    };
    let keypair = resolve_key(pem_str, sig_algo)?;
    let ghost key_der = keypair.der@;
    let cert = if is_client {
        match info.client_cert(keypair) {
            Ok(c) => c,
            Err(e) => {
                return Err(e);
            },
        }
    } else {
        match info.server_cert(keypair) {
            Ok(c) => c,
            Err(e) => {
                return Err(e);
            },
        }
    };
    ca.sign_cert(&cert)
}

} // verus!
