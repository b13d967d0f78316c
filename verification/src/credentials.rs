//! The three artifacts of a certificate in one encoding, and where they are
//! written.

use vstd::prelude::*;
use vstd::string::StrSliceExecFns;
use vstd::utf8::encode_utf8;

use crate::encoding::{
    certificate_label,
    is_der,
    is_pem,
    lemma_der_is_not_pem,
    lemma_pem_text_bytes,
    private_key_label,
    public_key_label,
    Encoding,
};
use crate::error::Error;
use crate::options::Options;
use crate::x509::{is_first_invalid, names_are_ascii, CertificateView, SelfSignedCertificate};

verus! {

/// What credentials are: three byte sequences.
pub struct CredentialsView {
    /// The encoded certificate.
    pub certificate: Seq<u8>,
    /// The encoded public key.
    pub public_key: Seq<u8>,
    /// The encoded private key.
    pub private_key: Seq<u8>,
}

impl CredentialsView {
    /// All three artifacts have the shape of the one encoding.
    pub open spec fn is_encoded_as(self, encoding: Encoding) -> bool {
        match encoding {
            Encoding::DER => {
                &&& is_der(self.certificate)
                &&& is_der(self.public_key)
                &&& is_der(self.private_key)
            },
            Encoding::PEM => {
                &&& is_pem(self.certificate, certificate_label())
                &&& is_pem(self.public_key, public_key_label())
                &&& is_pem(self.private_key, private_key_label())
            },
        }
    }
}

/// Credentials have one encoding at most: no artifact has the shape of both.
pub proof fn lemma_one_encoding(credentials: CredentialsView)
    ensures
        !(credentials.is_encoded_as(Encoding::DER) && credentials.is_encoded_as(Encoding::PEM)),
{
    lemma_der_is_not_pem(credentials.certificate, certificate_label());
}

/// The credentials of a certificate in an encoding, given the bytes that
/// signing the certificate gave: the keys are those of the certificate, in
/// the same encoding, a PEM text by its UTF-8 bytes.
pub open spec fn serialized(
    certificate: CertificateView,
    encoding: Encoding,
    signed: Seq<u8>,
) -> CredentialsView {
    match encoding {
        Encoding::DER => CredentialsView {
            certificate: signed,
            public_key: certificate.public_key_der,
            private_key: certificate.private_key_der,
        },
        Encoding::PEM => CredentialsView {
            certificate: signed,
            public_key: encode_utf8(certificate.public_key_pem),
            private_key: encode_utf8(certificate.private_key_pem),
        },
    }
}

/// A certificate with its public and its private key, all in one encoding.
/// Made once, and not changed afterwards.
pub struct Credentials {
    certificate: Vec<u8>,
    public_key: Vec<u8>,
    private_key: Vec<u8>,
}

impl View for Credentials {
    type V = CredentialsView;

    closed spec fn view(&self) -> CredentialsView {
        CredentialsView {
            certificate: self.certificate@,
            public_key: self.public_key@,
            private_key: self.private_key@,
        }
    }
}

/// One file to create, or to overwrite, with its whole content.
pub struct FileWrite<'a> {
    /// Where the file goes.
    pub path: &'a str,
    /// What the file holds.
    pub data: &'a [u8],
}

impl Credentials {
    /// Credentials from DER artifacts, the certificate as signing left it.
    /// Without a certificate there are no credentials: the error of the
    /// signing is all that is given back.
    pub fn from_der(
        certificate: Result<Vec<u8>, rcgen::RcgenError>,
        public_key: Vec<u8>,
        private_key: Vec<u8>,
    ) -> (r: Result<Credentials, Error>)
        ensures
            match (r, certificate) {
                (Ok(credentials), Ok(der)) => credentials@ == (CredentialsView {
                    certificate: der@,
                    public_key: public_key@,
                    private_key: private_key@,
                }),
                (Err(error), Err(cause)) => error == Error::Serialization(cause),
                _ => false,
            },
    {
        match certificate {
            Ok(der) => Ok(Credentials { certificate: der, public_key, private_key }),
            Err(cause) => Err(Error::Serialization(cause)),
        }
    }

    /// Credentials from PEM artifacts, the certificate as signing left it.
    /// Each text is kept as its UTF-8 bytes.
    pub fn from_pem(
        certificate: Result<String, rcgen::RcgenError>,
        public_key: &str,
        private_key: &str,
    ) -> (r: Result<Credentials, Error>)
        ensures
            match (r, certificate) {
                (Ok(credentials), Ok(text)) => credentials@ == (CredentialsView {
                    certificate: encode_utf8(text@),
                    public_key: encode_utf8(public_key@),
                    private_key: encode_utf8(private_key@),
                }),
                (Err(error), Err(cause)) => error == Error::Serialization(cause),
                _ => false,
            },
    {
        match certificate {
            Ok(text) => Ok(
                Credentials {
                    certificate: text.as_str().as_bytes_vec(),
                    public_key: public_key.as_bytes_vec(),
                    private_key: private_key.as_bytes_vec(),
                },
            ),
            Err(cause) => Err(Error::Serialization(cause)),
        }
    }

    /// Serialises a certificate and its key pair in one encoding.
    ///
    /// The keys are those of the certificate. The certificate is signed in
    /// the call, so its bytes are new each time; they have the shape of the
    /// encoding, as the keys have. Where signing fails, so does the call.
    pub fn from_certificate(
        certificate: &SelfSignedCertificate,
        encoding: &Encoding,
    ) -> (r: Result<Credentials, Error>)
        ensures
            match r {
                Ok(credentials) => {
                    &&& credentials@ == serialized(
                        certificate@,
                        *encoding,
                        credentials@.certificate,
                    )
                    &&& credentials@.is_encoded_as(*encoding)
                },
                Err(error) => error is Serialization,
            },
    {
        match encoding {
            Encoding::DER => Credentials::from_der(
                certificate.serialize_der(),
                certificate.public_key_der().clone(),
                certificate.private_key_der().clone(),
            ),
            Encoding::PEM => {
                let signed = certificate.serialize_pem();
                let public_key = certificate.public_key_pem();
                let private_key = certificate.private_key_pem();
                proof {
                    if let Ok(text) = &signed {
                        lemma_pem_text_bytes(text@, certificate_label());
                    }
                    lemma_pem_text_bytes(public_key@, public_key_label());
                    lemma_pem_text_bytes(private_key@, private_key_label());
                }
                Credentials::from_pem(signed, public_key.as_str(), private_key.as_str())
            },
        }
    }

    /// Issues a certificate for the names of `options` and serialises it in
    /// the encoding of `options`.
    ///
    /// A name that is not ASCII is refused before anything is generated.
    /// Otherwise the outcome is that of issuing and signing.
    pub fn from_options(options: &Options) -> (r: Result<Credentials, Error>)
        ensures
            r matches Err(Error::InvalidSubjectAltName { .. }) <==> !names_are_ascii(
                options.subject_alt_names.deep_view(),
            ),
            match r {
                Ok(credentials) => credentials@.is_encoded_as(options.encoding),
                Err(Error::InvalidSubjectAltName { index }) => is_first_invalid(
                    options.subject_alt_names.deep_view(),
                    index as int,
                ),
                Err(error) => error is CertificateGeneration || error is Serialization,
            },
    {
        match SelfSignedCertificate::generate(&options.subject_alt_names) {
            Ok(certificate) => Credentials::from_certificate(&certificate, &options.encoding),
            Err(error) => Err(error),
        }
    }

    /// The files that hold the credentials, in the order in which they are
    /// written: the certificate, the public key, the private key. Each goes
    /// to its path in `options`, and holds its artifact byte for byte.
    pub fn save_into_files<'a>(
        credentials: &'a Credentials,
        options: &'a Options,
    ) -> (writes: [FileWrite<'a>; 3])
        ensures
            writes[0].path@ == options.certificate@,
            writes[0].data@ == credentials@.certificate,
            writes[1].path@ == options.key_pair.public_key@,
            writes[1].data@ == credentials@.public_key,
            writes[2].path@ == options.key_pair.private_key@,
            writes[2].data@ == credentials@.private_key,
    {
        [
            FileWrite {
                path: options.certificate.as_str(),
                data: credentials.certificate.as_slice(),
            },
            FileWrite {
                path: options.key_pair.public_key.as_str(),
                data: credentials.public_key.as_slice(),
            },
            FileWrite {
                path: options.key_pair.private_key.as_str(),
                data: credentials.private_key.as_slice(),
            },
        ]
    }

    /// The encoded certificate.
    pub fn certificate(&self) -> (bytes: &Vec<u8>)
        ensures
            bytes@ == self@.certificate,
    {
        &self.certificate
    }

    /// The encoded public key.
    pub fn public_key(&self) -> (bytes: &Vec<u8>)
        ensures
            bytes@ == self@.public_key,
    {
        &self.public_key
    }

    /// The encoded private key.
    pub fn private_key(&self) -> (bytes: &Vec<u8>)
        ensures
            bytes@ == self@.private_key,
    {
        &self.private_key
    }
}

} // verus!
