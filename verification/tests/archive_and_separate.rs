//! Multi-file requests: bundling into one encrypted tar archive, and
//! separate mode with one artifact per input.

use std::io::Read;

use girage::backend::{encrypt, InputFile};
use girage::method::EncryptionMethod;

fn input(name: &str, data: &[u8]) -> InputFile {
    InputFile { name: name.to_string(), data: data.to_vec() }
}

fn untar(stream: &[u8]) -> Vec<(String, Vec<u8>)> {
    let mut archive = tar::Archive::new(stream);
    let mut out = Vec::new();
    for entry in archive.entries().unwrap() {
        let mut entry = entry.unwrap();
        let name = entry.path().unwrap().to_str().unwrap().to_string();
        let mut data = Vec::new();
        entry.read_to_end(&mut data).unwrap();
        out.push((name, data));
    }
    out
}

#[test]
fn passphrase_archive_two_files() {
    let method = EncryptionMethod::Passphrase("secret1".to_string());
    let inputs = vec![input("a.txt", b"hello"), input("b.txt", b"world")];
    let arts = encrypt(&method, &inputs, "archive.tar.age", false, false).unwrap();
    assert_eq!(arts.len(), 1);
    assert_eq!(arts[0].path, "archive.tar.age");
    let identity =
        age::scrypt::Identity::new(age::secrecy::SecretString::from("secret1".to_string()));
    let decrypted = age::decrypt(&identity, &arts[0].data).unwrap();
    let entries = untar(&decrypted);
    assert_eq!(entries.len(), 2);
    assert_eq!(entries[0].0, "a.txt");
    assert_eq!(entries[0].1, b"hello");
    assert_eq!(entries[1].0, "b.txt");
    assert_eq!(entries[1].1, b"world");
}

#[test]
fn archive_recipients_round_trip() {
    let identity = age::x25519::Identity::generate();
    let method = EncryptionMethod::Recipients(vec![identity.to_public().to_string()]);
    let inputs = vec![
        input("first.bin", &[0u8, 1, 2, 3, 255]),
        input("second.bin", b""),
        input("third.txt", b"three of three"),
    ];
    let arts = encrypt(&method, &inputs, "bundle.tar.age", false, false).unwrap();
    assert_eq!(arts.len(), 1);
    let decrypted = age::decrypt(&identity, &arts[0].data).unwrap();
    let entries = untar(&decrypted);
    assert_eq!(entries.len(), 3);
    assert_eq!(entries[0], ("first.bin".to_string(), vec![0u8, 1, 2, 3, 255]));
    assert_eq!(entries[1], ("second.bin".to_string(), Vec::new()));
    assert_eq!(entries[2], ("third.txt".to_string(), b"three of three".to_vec()));
}

#[test]
fn separate_mode_three_files() {
    let identity = age::x25519::Identity::generate();
    let method = EncryptionMethod::Recipients(vec![identity.to_public().to_string()]);
    let inputs = vec![
        input("a.txt", b"alpha"),
        input("b.txt", b"beta"),
        input("notes.md", b"# gamma"),
    ];
    let arts = encrypt(&method, &inputs, "outdir", false, true).unwrap();
    assert_eq!(arts.len(), 3);
    assert_eq!(arts[0].path, "outdir/a.txt.age");
    assert_eq!(arts[1].path, "outdir/b.txt.age");
    assert_eq!(arts[2].path, "outdir/notes.md.age");
    assert_eq!(age::decrypt(&identity, &arts[0].data).unwrap(), b"alpha");
    assert_eq!(age::decrypt(&identity, &arts[1].data).unwrap(), b"beta");
    assert_eq!(age::decrypt(&identity, &arts[2].data).unwrap(), b"# gamma");
}

#[test]
fn separate_mode_armored() {
    let identity = age::x25519::Identity::generate();
    let method = EncryptionMethod::Recipients(vec![identity.to_public().to_string()]);
    let inputs = vec![input("a.txt", b"alpha"), input("b.txt", b"beta")];
    let arts = encrypt(&method, &inputs, "outdir", true, true).unwrap();
    assert_eq!(arts.len(), 2);
    for art in &arts {
        assert!(art.data.iter().all(|b| b.is_ascii()));
    }
    assert_eq!(age::decrypt(&identity, &arts[1].data).unwrap(), b"beta");
}
