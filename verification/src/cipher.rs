//! Encryption of a plaintext buffer under the chosen method, through the age
//! crate. The ciphertext itself is randomized, so the contracts speak of what
//! decryption makes of it: `dec_x25519` and `dec_scrypt` name, for each
//! recipient encoding or passphrase, the plaintext (if any) that decrypting a
//! given byte string yields. Two ciphertexts for one plaintext need not be
//! equal, but both decrypt back to it.

use crate::method::EncryptionMethod;
use crate::screen::small_order_recipient_str;
use age::armor::ArmoredWriter;
use age::armor::Format;
use age::secrecy::SecretString;
use age::x25519::Recipient as PublicKey;
use age::Encryptor;
use age::Recipient;
use std::io::Write;
use vstd::prelude::*;

verus! {

/// What decrypting `ciphertext` with the identity matching the recipient
/// encoded as `recipient` yields: the plaintext, or nothing if the ciphertext
/// is not a complete age file encrypted to that recipient.
pub uninterp spec fn dec_x25519(recipient: Seq<char>, ciphertext: Seq<u8>) -> Option<Seq<u8>>;

/// What decrypting `ciphertext` with `passphrase` yields: the plaintext, or
/// nothing if the ciphertext is not a complete age file sealed with that
/// passphrase.
pub uninterp spec fn dec_scrypt(passphrase: Seq<char>, ciphertext: Seq<u8>) -> Option<Seq<u8>>;

/// Whether `s` is a well-formed textual encoding of a public-key recipient.
pub uninterp spec fn valid_recipient_str(s: Seq<char>) -> bool;

/// Every byte is ASCII, as the armored text encoding guarantees.
pub open spec fn ascii_bytes(s: Seq<u8>) -> bool {
    forall|i: int| 0 <= i < s.len() ==> s[i] < 128
}

/// Relies on `age::x25519::Recipient::from_str`, `age::Encryptor::
/// with_recipients`, `Encryptor::wrap_output`, `StreamWriter::finish` and
/// `age::armor::ArmoredWriter`: the sealed output decrypts, under the
/// identity of each listed recipient, back to the plaintext; with `armor` it
/// is ASCII text; an empty or malformed recipient list is refused; and a
/// non-empty list that parses throughout is sealed successfully, since every
/// write goes into an in-memory buffer. The encryption layer aborts the
/// process on a key whose shared secrets are all zeros, so the precondition
/// keeps the small-order encodings out; it aborts too if the operating
/// system's randomness fails, which no input can cause.
#[verifier::external_body]
fn seal_for_recipients(recipients: &Vec<String>, plaintext: &Vec<u8>, armor: bool) -> (r: Result<
    Vec<u8>,
    String,
>)
    requires
        forall|i: int|
            0 <= i < recipients@.len() ==> !small_order_recipient_str(recipients@[i]@),
    ensures
        r matches Ok(ct) ==> forall|i: int|
            0 <= i < recipients@.len() ==> dec_x25519(recipients@[i]@, ct@) == Some(plaintext@),
        r matches Ok(ct) ==> armor ==> ascii_bytes(ct@),
        recipients@.len() == 0 ==> r is Err,
        (exists|i: int|
            0 <= i < recipients@.len() && !valid_recipient_str(recipients@[i]@)) ==> r is Err,
        recipients@.len() > 0 && (forall|i: int|
            0 <= i < recipients@.len() ==> valid_recipient_str(recipients@[i]@)) ==> r is Ok,
{
    let keys: Result<Vec<PublicKey>, String> =
        recipients.iter().map(|s| s.parse().map_err(String::from)).collect();
    let enc = Encryptor::with_recipients(keys?.iter().map(|k| k as &dyn Recipient))
        .map_err(|e| e.to_string())?;
    let fmt = if armor { Format::AsciiArmor } else { Format::Binary };
    let mut w = enc.wrap_output(ArmoredWriter::wrap_output(Vec::new(), fmt)
        .map_err(|e| e.to_string())?).map_err(|e| e.to_string())?;
    w.write_all(plaintext).map_err(|e| e.to_string())?;
    w.finish().and_then(|a| a.finish()).map_err(|e| e.to_string())
}

/// Relies on `age::Encryptor::with_user_passphrase`, `Encryptor::
/// wrap_output`, `StreamWriter::finish` and `age::armor::ArmoredWriter`: the
/// sealed output decrypts under the same passphrase back to the plaintext;
/// with `armor` it is ASCII text. Sealing always succeeds: building the
/// passphrase encryptor cannot fail, and every write goes into an in-memory
/// buffer. The one abort left is a failure of the operating system's
/// randomness, which no input can cause.
#[verifier::external_body]
fn seal_with_passphrase(passphrase: &str, plaintext: &Vec<u8>, armor: bool) -> (r: Result<
    Vec<u8>,
    String,
>)
    ensures
        r is Ok,
        r matches Ok(ct) ==> dec_scrypt(passphrase@, ct@) == Some(plaintext@),
        r matches Ok(ct) ==> armor ==> ascii_bytes(ct@),
{
    let enc = Encryptor::with_user_passphrase(SecretString::from(passphrase.to_string()));
    let fmt = if armor { Format::AsciiArmor } else { Format::Binary };
    let mut w = enc.wrap_output(ArmoredWriter::wrap_output(Vec::new(), fmt)
        .map_err(|e| e.to_string())?).map_err(|e| e.to_string())?;
    w.write_all(plaintext).map_err(|e| e.to_string())?;
    w.finish().and_then(|a| a.finish()).map_err(|e| e.to_string())
}

/// Decrypting `ct` with the chosen method yields `pt`: under every recipient
/// of a recipient list, or under the passphrase.
pub open spec fn decrypts_to(method: EncryptionMethod, ct: Seq<u8>, pt: Seq<u8>) -> bool {
    match method {
        EncryptionMethod::Recipients(rs) => forall|i: int|
            0 <= i < rs.len() ==> dec_x25519(rs[i]@, ct) == Some(pt),
        EncryptionMethod::Passphrase(p) => dec_scrypt(p@, ct) == Some(pt),
    }
}

/// Every recipient of the list is usable: its encoding parses, and it is
/// none of the small-order keys the backend screens out.
pub open spec fn usable_recipients(rs: Seq<String>) -> bool {
    forall|i: int|
        0 <= i < rs.len() ==> valid_recipient_str(rs[i]@) && !small_order_recipient_str(rs[i]@)
}

/// The chosen method can be sealed with: a passphrase always can; a
/// recipient list can when it is non-empty and every recipient is usable.
pub open spec fn method_usable(method: EncryptionMethod) -> bool {
    match method {
        EncryptionMethod::Recipients(rs) => rs.len() > 0 && usable_recipients(rs@),
        EncryptionMethod::Passphrase(_) => true,
    }
}

/// Seals one plaintext buffer under `method` into a single age-format
/// ciphertext, ASCII-armored when `armor` is set. On success the ciphertext
/// decrypts back to exactly the plaintext; the seal step has already run, so
/// the buffer is a complete, decryptable age file. Success is owed whenever
/// the method is usable; a recipient list with an unparsable entry is
/// refused. The caller must have screened the small-order recipient
/// encodings out, as the backend does.
pub fn encrypt_bytes(method: &EncryptionMethod, plaintext: &Vec<u8>, armor: bool) -> (r: Result<
    Vec<u8>,
    String,
>)
    requires
        *method matches EncryptionMethod::Recipients(rs) ==> forall|i: int|
            0 <= i < rs.len() ==> !small_order_recipient_str(rs[i]@),
    ensures
        r matches Ok(ct) ==> decrypts_to(*method, ct@, plaintext@),
        r matches Ok(ct) ==> armor ==> ascii_bytes(ct@),
        method_usable(*method) ==> r is Ok,
        *method matches EncryptionMethod::Recipients(rs) ==> (rs.len() == 0 || exists|i: int|
            0 <= i < rs.len() && !valid_recipient_str(rs[i]@)) ==> r is Err,
{
    match method {
        EncryptionMethod::Recipients(rs) => seal_for_recipients(rs, plaintext, armor),
        EncryptionMethod::Passphrase(p) => seal_with_passphrase(p.as_str(), plaintext, armor),
    }
}

} // verus!
