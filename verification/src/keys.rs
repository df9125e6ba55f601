//! The signing key resolver: a certificate's keypair is either parsed from
//! caller-supplied PEM text or freshly generated for the requested signature
//! algorithm.

use vstd::prelude::*;

use crate::builder::CertSigAlgo;
use crate::error::CertifyError;
use crate::outside;
use crate::outside::pem_block_der;

verus! {

/// A keypair together with its PKCS#8 document. The signing backend holds
/// the key itself; the DER bytes are the plain value the contracts speak of,
/// and they are the exact bytes the key serializes to.
pub struct KeyMaterial {
    pub key: rcgen::KeyPair,
    pub der: Vec<u8>,
}

/// Obtain the keypair for a certificate: parse `existing` when it is given,
/// otherwise generate a fresh keypair for `algo`. A parsed key's DER
/// document is exactly the contents of the supplied PEM block.
pub fn resolve_key(existing: Option<&str>, algo: CertSigAlgo) -> (r: Result<
    KeyMaterial,
    CertifyError,
>)
    ensures
        r matches Ok(k) ==> (existing matches Some(s) ==> pem_block_der(s@) == Some(k.der@)),
        r matches Err(e) ==> e is RcgenError,
{
    match existing {
        Some(s) => match outside::keypair_from_pem(s) {
            Ok((key, der)) => Ok(KeyMaterial { key, der }),
            Err(e) => Err(CertifyError::RcgenError(e)),
        },
        None => match outside::keypair_generate(algo) {
            Ok((key, der)) => Ok(KeyMaterial { key, der }),
            Err(e) => Err(CertifyError::RcgenError(e)),
        },
    }
}

} // verus!
