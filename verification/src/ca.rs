//! The certificate authority entity: a self-signed certificate with its
//! keypair. It signs leaf certificates, serializes itself to DER and PEM,
//! and can be reconstructed from existing PEM text. A loaded CA keeps the
//! loaded DER bytes verbatim, so re-serialization is byte-identical to the
//! input.

use vstd::prelude::*;

use crate::builder::Cert;
use crate::builder::CertParams;
use crate::builder::params_dns_ia5;
use crate::builder::window_serializable;
use crate::error::CertifyError;
use crate::keys::KeyMaterial;
use crate::outside;
use crate::outside::pem_block_der;
use crate::outside::pem_text;
use crate::outside::pem_text_lf;

verus! {

/// A certificate authority: its self-signed certificate, and, when it was
/// loaded from PEM text, the loaded certificate's DER bytes kept verbatim.
pub struct CA {
    pub cert: Cert,
    pub data: Option<Vec<u8>>,
}

impl CA {
    /// The DER bytes this CA serializes to: the originally loaded bytes when
    /// they are present, else the bytes of the self-signed certificate.
    pub open spec fn der_spec(&self) -> Seq<u8> {
        match self.data {
            Some(d) => d@,
            None => self.cert.cert_der@,
        }
    }

    /// Reconstruct a CA from a certificate PEM and a private key PEM. The
    /// key's DER document and the certificate's DER bytes are exactly the
    /// contents of the two PEM blocks; the loaded bytes are retained so that
    /// serialization reproduces the input. Text without a well-formed PEM
    /// block is always rejected, and every failure is the PEM codec's or the
    /// signing backend's.
    pub fn load(ca_cert: &str, ca_key: &str) -> (r: Result<CA, CertifyError>)
        ensures
            r matches Ok(ca) ==> {
                &&& ca.data is Some
                &&& pem_block_der(ca_cert@) == Some(ca.der_spec())
                &&& pem_block_der(ca_key@) == Some(ca.cert.key_der@)
            },
            pem_block_der(ca_cert@) is None ==> r is Err,
            pem_block_der(ca_key@) is None ==> r is Err,
            r matches Err(e) ==> e is RcgenError || e is PemError,
    {
        let (key, key_der) = match outside::keypair_from_pem(ca_key) {
            Ok(kd) => kd,
            Err(e) => {
                return Err(CertifyError::RcgenError(e));
            },
        };
        let params = match outside::params_from_ca_cert_pem(ca_cert) {
            Ok(p) => p,
            Err(e) => {
                return Err(CertifyError::RcgenError(e));
            },
        };
        let ca_data = match outside::pem_parse_block(ca_cert) {
            Ok(d) => d,
            Err(e) => {
                return Err(CertifyError::PemError(e));
            },
        };
        let cert = match Cert::from_rcgen_params(params, KeyMaterial { key, der: key_der }) {
            Ok(c) => c,
            Err(e) => {
                return Err(e);
            },
        };
        Ok(CA { cert, data: Some(ca_data) })
    }

    /// Self-sign the given parameters and wrap the certificate as a CA that
    /// serializes by re-encoding (no loaded bytes). The library's own error,
    /// `InvalidCertificate`, comes precisely of a validity bound outside the
    /// serializable window; everything else is the signing backend's.
    pub fn from_params(params: CertParams, keypair: KeyMaterial) -> (r: Result<CA, CertifyError>)
        requires
            params_dns_ia5(params@),
        ensures
            r matches Ok(ca) ==> {
                &&& ca.data is None
                &&& ca.cert.key_der@ == keypair.der@
                &&& ca.cert.signed@ == Some(params@)
            },
            (r matches Err(e) && e is InvalidCertificate) <==> !window_serializable(params@),
            r matches Err(e) ==> e is InvalidCertificate || e is RcgenError,
    {
        match Cert::from_params(params, keypair) {
            Ok(cert) => Ok(CA { cert, data: None }),
            Err(e) => Err(e),
        }
    }

    /// Sign the given certificate's parameters with this CA's certificate
    /// and key, and return the signed certificate's PEM and the leaf's
    /// private key PEM. The CA itself is not touched, so any number of
    /// certificates can be signed independently from one CA.
    pub fn sign_cert(&self, cert: &Cert) -> (r: Result<(String, String), CertifyError>)
        ensures
            r matches Ok(pair) ==> {
                &&& pair.1@ == pem_text_lf("PRIVATE KEY"@, cert.key_der@)
                &&& pem_block_der(pair.1@) == Some(cert.key_der@)
                &&& pem_block_der(pair.0@) matches Some(d) && pair.0@ == pem_text_lf(
                    "CERTIFICATE"@,
                    d,
                )
            },
            r matches Err(e) ==> e is RcgenError,
    {
        let der = match outside::sign_with_issuer(
            &cert.certificate,
            &cert.keypair,
            &self.cert.certificate,
            &self.cert.keypair,
        ) {
            Ok(d) => d,
            Err(e) => {
                return Err(CertifyError::RcgenError(e));
            },
        };
        let cert_pem = outside::pem_encode_cert_lf(&der);
        let key_pem = outside::pem_encode_key(&cert.key_der);
        Ok((cert_pem, key_pem))
    }

    /// This CA's certificate in DER: the loaded bytes when present, else the
    /// self-signed certificate's bytes.
    pub fn serialize_der(&self) -> (r: Result<Vec<u8>, CertifyError>)
        ensures
            r matches Ok(d) && d@ == self.der_spec(),
    {
        match &self.data {
            Some(data) => Ok(data.clone()),
            None => Ok(self.cert.cert_der.clone()),
        }
    }

    /// This CA's certificate as PEM text: the PEM armor of `serialize_der`,
    /// from which parsing recovers exactly those DER bytes.
    pub fn serialize_pem(&self) -> (r: Result<String, CertifyError>)
        ensures
            r matches Ok(s) && s@ == pem_text("CERTIFICATE"@, self.der_spec()) && pem_block_der(
                s@,
            ) == Some(self.der_spec()),
    {
        let der = match self.serialize_der() {
            Ok(d) => d,
            Err(e) => {
                return Err(e);
            },
        };
        Ok(outside::pem_encode_cert(&der))
    }

    /// This CA's private key as PEM text: the armor of the key's PKCS#8
    /// document, from which parsing recovers exactly that document.
    pub fn serialize_private_key_pem(&self) -> (r: String)
        ensures
            r@ == pem_text_lf("PRIVATE KEY"@, self.cert.key_der@),
            pem_block_der(r@) == Some(self.cert.key_der@),
    {
        outside::pem_encode_key(&self.cert.key_der)
    }

    /// Round trip: loading a CA back from its own certificate and key PEM
    /// yields a CA with the same DER bytes and the same key document, so its
    /// PEM serialization is byte-identical to the original's. This holds for
    /// freshly built and for loaded CAs alike.
    pub fn reload(&self) -> (r: Result<CA, CertifyError>)
        ensures
            r matches Ok(c2) ==> c2.der_spec() == self.der_spec() && c2.cert.key_der@
                == self.cert.key_der@,
            r matches Err(e) ==> e is RcgenError || e is PemError,
    {
        let cert_pem = match self.serialize_pem() {
            Ok(s) => s,
            Err(e) => {
                return Err(e);
            },
        };
        let key_pem = self.serialize_private_key_pem();
        CA::load(cert_pem.as_str(), key_pem.as_str())
    }
}

} // verus!
