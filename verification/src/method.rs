//! The encryption method chosen for a request, the validity policy a caller
//! must satisfy before a request may start, and the error taxonomy of the
//! backend.

use vstd::prelude::*;
use vstd::string::StrSliceExecFns;

verus! {

/// The shortest passphrase the caller may hand to the backend.
pub const MIN_PASSPHRASE_LEN: usize = 6;

/// How a request is keyed: exactly one of the two is active.
///
/// A recipient is carried as its textual public-key encoding; the backend
/// hands it verbatim to the encryption layer, which parses it.
pub enum EncryptionMethod {
    Recipients(Vec<String>),
    Passphrase(String),
}

impl EncryptionMethod {
    /// The caller-side validity policy: a selected recipient list must be
    /// non-empty; a selected passphrase must have at least
    /// `MIN_PASSPHRASE_LEN` characters.
    pub open spec fn valid(self) -> bool {
        match self {
            EncryptionMethod::Recipients(rs) => rs.len() > 0,
            EncryptionMethod::Passphrase(p) => p@.len() >= MIN_PASSPHRASE_LEN,
        }
    }
}

/// The guard applied before an encryption request may start: it holds exactly
/// when the chosen method satisfies the validity policy, so a too-short
/// passphrase or an empty recipient list never reaches the backend.
pub fn method_allowed(method: &EncryptionMethod) -> (r: bool)
    ensures
        r == method.valid(),
{
    match method {
        EncryptionMethod::Recipients(rs) => rs.len() > 0,
        EncryptionMethod::Passphrase(p) => p.as_str().unicode_len() >= MIN_PASSPHRASE_LEN,
    }
}

/// Why an encryption request failed.
#[derive(Debug)]
pub enum EncryptError {
    /// The request carried no input files.
    NoInputs,
    /// A recipient list was selected but is empty.
    NoRecipients,
    /// The passphrase is shorter than `MIN_PASSPHRASE_LEN` characters.
    PassphraseTooShort,
    /// The encryption layer failed or the key material was refused; the
    /// description is attached.
    Crypto(String),
    /// The archive layer failed; the description it gave is attached.
    Archive(String),
    /// Reading an input or writing an artifact failed. The backend itself
    /// never returns this; it is for the I/O layer around it, which reports
    /// through the same completion channel.
    Io(String),
}

impl EncryptError {
    /// A human-readable description of the failure.
    pub fn describe(&self) -> (r: String)
        ensures
            self matches EncryptError::Crypto(m) ==> r@ == m@,
            self matches EncryptError::Archive(m) ==> r@ == m@,
            self matches EncryptError::Io(m) ==> r@ == m@,
    {
        match self {
            EncryptError::NoInputs => "no input files were given".to_string(),
            EncryptError::NoRecipients => "the recipient list is empty".to_string(),
            EncryptError::PassphraseTooShort => "the passphrase is too short".to_string(),
            EncryptError::Crypto(m) => m.clone(),
            EncryptError::Archive(m) => m.clone(),
            EncryptError::Io(m) => m.clone(),
        }
    }
}

} // verus!
