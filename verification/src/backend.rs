//! The encryption backend: one call takes the chosen method, the input files
//! and the output location, and produces the encrypted artifacts — a single
//! one for one input, one per input in separate mode, or a single encrypted
//! tar archive otherwise.

use crate::archive::build_archive;
use crate::archive::entry_seq;
use crate::archive::plain_entry_name;
use crate::archive::tar_name_ok;
use crate::archive::tar_stream;
use crate::cipher::ascii_bytes;
use crate::cipher::decrypts_to;
use crate::cipher::encrypt_bytes;
use crate::cipher::method_usable;
use crate::screen::is_small_order_recipient;
use crate::screen::small_order_recipient_str;
use crate::method::EncryptError;
use crate::method::EncryptionMethod;
use crate::method::MIN_PASSPHRASE_LEN;
use crate::naming::separate_output_path;
use vstd::prelude::*;
use vstd::string::StrSliceExecFns;
use vstd::string::StringExecFns;

verus! {

/// One input file, as the caller hands it over: its base filename and its
/// full contents.
pub struct InputFile {
    pub name: String,
    pub data: Vec<u8>,
}

/// One encrypted artifact to be written to durable storage: where it goes
/// and the complete, finalized ciphertext.
pub struct Artifact {
    pub path: String,
    pub data: Vec<u8>,
}

/// The defensive validation the backend applies before any work, in this
/// order: a request with no inputs, then an empty recipient list, then a
/// too-short passphrase. `None` means the configuration is acceptable.
pub open spec fn config_error(method: EncryptionMethod, n_inputs: nat) -> Option<EncryptError> {
    if n_inputs == 0 {
        Some(EncryptError::NoInputs)
    } else if method matches EncryptionMethod::Recipients(rs) && rs.len() == 0 {
        Some(EncryptError::NoRecipients)
    } else if method matches EncryptionMethod::Passphrase(p) && p@.len() < MIN_PASSPHRASE_LEN {
        Some(EncryptError::PassphraseTooShort)
    } else {
        None
    }
}

/// `art` is a valid artifact for plaintext `pt`: it decrypts back to `pt`
/// under the chosen method, and is ASCII text when armor was asked for.
pub open spec fn artifact_ok(method: EncryptionMethod, art: Artifact, pt: Seq<u8>, armor: bool) -> bool {
    &&& decrypts_to(method, art.data@, pt)
    &&& armor ==> ascii_bytes(art.data@)
}

/// Every input's base filename is an acceptable archive entry name.
pub open spec fn archive_names_ok(inputs: Seq<InputFile>) -> bool {
    forall|i: int| 0 <= i < inputs.len() ==> tar_name_ok(#[trigger] inputs[i].name@)
}

/// Every input's base filename is a plain archive entry name, for which
/// archive building is owed to succeed.
pub open spec fn archive_names_plain(inputs: Seq<InputFile>) -> bool {
    forall|i: int| 0 <= i < inputs.len() ==> plain_entry_name(#[trigger] inputs[i].name@)
}

/// Whether every recipient encoding passes the small-order screen.
pub fn all_recipients_screened(rs: &Vec<String>) -> (r: bool)
    ensures
        r == (forall|j: int|
            0 <= j < rs@.len() ==> !small_order_recipient_str(#[trigger] rs@[j]@)),
{
    let mut k: usize = 0;
    while k < rs.len()
        invariant
            0 <= k <= rs@.len(),
            forall|j: int| 0 <= j < k ==> !small_order_recipient_str(#[trigger] rs@[j]@),
        decreases rs@.len() - k,
    {
        if is_small_order_recipient(rs[k].as_str()) {
            return false;
        }
        k += 1;
    }
    true
}

/// A request that satisfies the caller-side validity policy and carries at
/// least one input is never rejected by the backend's defensive validation:
/// the guard is at least as strict as the backend.
pub proof fn lemma_guard_matches_backend(method: EncryptionMethod, n_inputs: nat)
    requires
        method.valid(),
        n_inputs > 0,
    ensures
        config_error(method, n_inputs) is None,
{
}

/// Encrypts the inputs under `method`. Exactly one of three shapes results:
///
/// - one input: one artifact at `output_path` holding that input encrypted;
/// - several inputs, separate mode: one artifact per input, in input order,
///   at `output_path/<base name>.age`, each independently encrypted;
/// - several inputs otherwise: one artifact at `output_path` holding the tar
///   archive of all inputs, encrypted as a single stream.
///
/// Every artifact is finalized: it decrypts back to its plaintext, and is
/// ASCII text when `armor` is set. A misconfigured request fails fast with
/// the matching error; a recipient encoding of one of the small-order keys
/// is refused before any sealing; any failure of the archive or encryption
/// layer fails the whole call with its description. The call succeeds
/// exactly when the configuration is acceptable, the method is usable, and —
/// in archive mode — every entry name is acceptable; in particular it is
/// owed to succeed when all entry names are plain.
pub fn encrypt(
    method: &EncryptionMethod,
    inputs: &Vec<InputFile>,
    output_path: &str,
    armor: bool,
    separate: bool,
) -> (r: Result<Vec<Artifact>, EncryptError>)
    ensures
        config_error(*method, inputs@.len()) matches Some(e) ==> r == Err::<
            Vec<Artifact>,
            EncryptError,
        >(e),
        r matches Err(e) ==> config_error(*method, inputs@.len()) is None ==> (e matches
            EncryptError::Crypto(_) || e matches EncryptError::Archive(_)),
        r matches Err(e) ==> e matches EncryptError::Archive(_) ==> inputs@.len() > 1 && !separate,
        r is Ok <==> (config_error(*method, inputs@.len()) is None && method_usable(*method) && (
        inputs@.len() > 1 && !separate ==> archive_names_ok(inputs@))),
        (config_error(*method, inputs@.len()) is None && method_usable(*method) && (inputs@.len()
            > 1 && !separate ==> archive_names_plain(inputs@))) ==> r is Ok,
        r matches Ok(arts) ==> config_error(*method, inputs@.len()) is None,
        r matches Ok(arts) ==> inputs@.len() == 1 ==> arts@.len() == 1 && arts@[0].path@
            == output_path@ && artifact_ok(*method, arts@[0], inputs@[0].data@, armor),
        r matches Ok(arts) ==> inputs@.len() > 1 && separate ==> arts@.len() == inputs@.len()
            && forall|i: int|
            0 <= i < inputs@.len() ==> (#[trigger] arts@[i]).path@ == output_path@ + "/"@
                + inputs@[i].name@ + ".age"@ && artifact_ok(
                *method,
                arts@[i],
                inputs@[i].data@,
                armor,
            ),
        r matches Ok(arts) ==> inputs@.len() > 1 && !separate ==> arts@.len() == 1 && arts@[0].path@
            == output_path@ && artifact_ok(
            *method,
            arts@[0],
            tar_stream(entry_seq(inputs@)),
            armor,
        ),
{
    if inputs.len() == 0 {
        return Err(EncryptError::NoInputs);
    }
    match method {
        EncryptionMethod::Recipients(rs) => {
            if rs.len() == 0 {
                return Err(EncryptError::NoRecipients);
            }
            if !all_recipients_screened(rs) {
                return Err(
                    EncryptError::Crypto(
                        String::from_str("a recipient key is a known small-order point"),
                    ),
                );
            }
        },
        EncryptionMethod::Passphrase(p) => {
            if p.as_str().unicode_len() < MIN_PASSPHRASE_LEN {
                return Err(EncryptError::PassphraseTooShort);
            }
        },
    }
    if inputs.len() == 1 {
        match encrypt_bytes(method, &inputs[0].data, armor) {
            Ok(ct) => {
                let mut arts: Vec<Artifact> = Vec::new();
                arts.push(Artifact { path: String::from_str(output_path), data: ct });
                Ok(arts)
            },
            Err(m) => Err(EncryptError::Crypto(m)),
        }
    } else if separate {
        let mut arts: Vec<Artifact> = Vec::new();
        let mut i: usize = 0;
        while i < inputs.len()
            invariant
                0 <= i <= inputs@.len(),
                arts@.len() == i,
                config_error(*method, inputs@.len()) is None,
                *method matches EncryptionMethod::Recipients(rs) ==> forall|j: int|
                    0 <= j < rs@.len() ==> !small_order_recipient_str(#[trigger] rs@[j]@),
                i > 0 ==> method_usable(*method),
                forall|j: int|
                    0 <= j < i ==> (#[trigger] arts@[j]).path@ == output_path@ + "/"@
                        + inputs@[j].name@ + ".age"@ && artifact_ok(
                        *method,
                        arts@[j],
                        inputs@[j].data@,
                        armor,
                    ),
            decreases inputs@.len() - i,
        {
            let ct = match encrypt_bytes(method, &inputs[i].data, armor) {
                Ok(c) => c,
                Err(m) => {
                    return Err(EncryptError::Crypto(m));
                },
            };
            let path = separate_output_path(output_path, inputs[i].name.as_str());
            arts.push(Artifact { path, data: ct });
            i += 1;
        }
        Ok(arts)
    } else {
        let stream = match build_archive(inputs) {
            Ok(s) => s,
            Err(m) => {
                return Err(EncryptError::Archive(m));
            },
        };
        match encrypt_bytes(method, &stream, armor) {
            Ok(ct) => {
                let mut arts: Vec<Artifact> = Vec::new();
                arts.push(Artifact { path: String::from_str(output_path), data: ct });
                Ok(arts)
            },
            Err(m) => Err(EncryptError::Crypto(m)),
        }
    }
}

} // verus!
