//! The errors of the library, and the stage each one belongs to.

use vstd::prelude::*;

verus! {

/// The step of the work at which an error arose.
#[derive(Debug, Clone, Copy, PartialEq, Eq, Structural)]
pub enum Stage {
    /// An argument was malformed; nothing had been generated yet.
    Input,
    /// No certificate could be built for the given names.
    CertificateGeneration,
    /// A certificate was built, but it could not be encoded.
    Serialization,
}

/// Why no credentials were produced. Every error is final: nothing is retried.
#[derive(Debug, PartialEq, Eq)]
pub enum Error {
    /// The encoding name is neither `pem` nor `der`.
    UnknownEncoding,
    /// The subject alternative name at `index` holds a character outside
    /// ASCII, which no certificate can carry.
    InvalidSubjectAltName { index: usize },
    /// `rcgen` could not generate the key pair or the certificate.
    CertificateGeneration(rcgen::RcgenError),
    /// `rcgen` could not sign or encode the certificate.
    Serialization(rcgen::RcgenError),
}

impl Error {
    /// The stage that an error belongs to.
    pub open spec fn spec_stage(self) -> Stage {
        match self {
            Error::UnknownEncoding => Stage::Input,
            Error::InvalidSubjectAltName { .. } => Stage::CertificateGeneration,
            Error::CertificateGeneration(_) => Stage::CertificateGeneration,
            Error::Serialization(_) => Stage::Serialization,
        }
    }

    /// The stage at which this error arose.
    pub fn stage(&self) -> (stage: Stage)
        ensures
            stage == self.spec_stage(),
    {
        match self {
            Error::UnknownEncoding => Stage::Input,
            Error::InvalidSubjectAltName { .. } => Stage::CertificateGeneration,
            Error::CertificateGeneration(_) => Stage::CertificateGeneration,
            Error::Serialization(_) => Stage::Serialization,
        }
    }
}

} // verus!
