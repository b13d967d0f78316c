//! Self-signed TLS credentials.
//!
//! A certificate is issued for a list of subject alternative names, together
//! with a fresh key pair, and then serialised, with both halves of the key
//! pair, in one of two encodings. Issuing and signing are done by `rcgen`; what
//! is decided around it is verified here: which names are accepted, which
//! encoding a name selects, which artifact ends up where, and which error
//! belongs to which stage.

pub mod credentials;
pub mod encoding;
pub mod error;
pub mod options;
pub mod x509;

pub use credentials::{Credentials, FileWrite};
pub use encoding::Encoding;
pub use error::{Error, Stage};
pub use options::{KeyPairOptions, Options};
pub use x509::SelfSignedCertificate;
