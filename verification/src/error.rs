//! The error type every fallible operation of this crate returns.

use vstd::prelude::*;

verus! {

/// What can go wrong while issuing or loading a certificate: an error of the
/// signing backend, an error of the PEM codec, or a certificate whose
/// validity bounds cannot be represented.
#[derive(Debug)]
pub enum CertifyError {
    RcgenError(rcgen::Error),
    PemError(pem::PemError),
    InvalidCertificate,
}

impl From<rcgen::Error> for CertifyError {
    fn from(e: rcgen::Error) -> Self {
        CertifyError::RcgenError(e)
    }
}

impl vstd::std_specs::convert::FromSpecImpl<rcgen::Error> for CertifyError {
    open spec fn obeys_from_spec() -> bool {
        true
    }

    open spec fn from_spec(e: rcgen::Error) -> Self {
        CertifyError::RcgenError(e)
    }
}

impl From<pem::PemError> for CertifyError {
    fn from(e: pem::PemError) -> Self {
        CertifyError::PemError(e)
    }
}

impl vstd::std_specs::convert::FromSpecImpl<pem::PemError> for CertifyError {
    open spec fn obeys_from_spec() -> bool {
        true
    }

    open spec fn from_spec(e: pem::PemError) -> Self {
        CertifyError::PemError(e)
    }
}

} // verus!
