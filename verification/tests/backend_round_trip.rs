//! Round trips of the encryption backend: every artifact decrypts, with the
//! matching key material, back to the original bytes.

use girage::backend::{encrypt, InputFile};
use girage::method::EncryptionMethod;

fn one_recipient() -> (age::x25519::Identity, String) {
    let identity = age::x25519::Identity::generate();
    let recipient = identity.to_public().to_string();
    (identity, recipient)
}

fn input(name: &str, data: &[u8]) -> InputFile {
    InputFile { name: name.to_string(), data: data.to_vec() }
}

#[test]
fn single_file_round_trip() {
    let (identity, recipient) = one_recipient();
    let method = EncryptionMethod::Recipients(vec![recipient]);
    let inputs = vec![input("report.pdf", b"%PDF-1.4 pretend pdf bytes")];
    let arts = encrypt(&method, &inputs, "report.pdf.age", false, false).unwrap();
    assert_eq!(arts.len(), 1);
    assert_eq!(arts[0].path, "report.pdf.age");
    let decrypted = age::decrypt(&identity, &arts[0].data).unwrap();
    assert_eq!(decrypted, b"%PDF-1.4 pretend pdf bytes");
}

#[test]
fn armored_single_recipient() {
    let (identity, recipient) = one_recipient();
    let method = EncryptionMethod::Recipients(vec![recipient]);
    let inputs = vec![input("report.pdf", b"%PDF-1.4 armored round trip")];
    let arts = encrypt(&method, &inputs, "report.pdf.age", true, false).unwrap();
    assert_eq!(arts.len(), 1);
    assert!(arts[0].data.iter().all(|b| b.is_ascii()));
    let text = String::from_utf8(arts[0].data.clone()).unwrap();
    assert!(text.starts_with("-----BEGIN AGE ENCRYPTED FILE-----"));
    let decrypted = age::decrypt(&identity, &arts[0].data).unwrap();
    assert_eq!(decrypted, b"%PDF-1.4 armored round trip");
}

#[test]
fn two_recipients_both_decrypt() {
    let (id_a, rec_a) = one_recipient();
    let (id_b, rec_b) = one_recipient();
    let method = EncryptionMethod::Recipients(vec![rec_a, rec_b]);
    let inputs = vec![input("note.txt", b"for either of two keys")];
    let arts = encrypt(&method, &inputs, "note.txt.age", false, false).unwrap();
    assert_eq!(arts.len(), 1);
    assert_eq!(age::decrypt(&id_a, &arts[0].data).unwrap(), b"for either of two keys");
    assert_eq!(age::decrypt(&id_b, &arts[0].data).unwrap(), b"for either of two keys");
}

#[test]
fn rerun_round_trips_again() {
    // Encryption is randomized, so two runs of one request need not produce
    // identical bytes; each run must still decrypt to the original.
    let (identity, recipient) = one_recipient();
    let method = EncryptionMethod::Recipients(vec![recipient]);
    let inputs = vec![input("again.txt", b"same request, run twice")];
    let first = encrypt(&method, &inputs, "again.txt.age", false, false).unwrap();
    let second = encrypt(&method, &inputs, "again.txt.age", false, false).unwrap();
    assert_eq!(age::decrypt(&identity, &first[0].data).unwrap(), b"same request, run twice");
    assert_eq!(age::decrypt(&identity, &second[0].data).unwrap(), b"same request, run twice");
}

#[test]
fn passphrase_single_round_trip() {
    let method = EncryptionMethod::Passphrase("correct horse".to_string());
    let inputs = vec![input("diary.txt", b"dear diary")];
    let arts = encrypt(&method, &inputs, "diary.txt.age", false, false).unwrap();
    assert_eq!(arts.len(), 1);
    let identity =
        age::scrypt::Identity::new(age::secrecy::SecretString::from("correct horse".to_string()));
    assert_eq!(age::decrypt(&identity, &arts[0].data).unwrap(), b"dear diary");
}
