//! The small-order recipient screen, and archive entry names the tar layer
//! refuses.

use girage::backend::{all_recipients_screened, encrypt, InputFile};
use girage::method::{EncryptError, EncryptionMethod};
use girage::screen::is_small_order_recipient;

const ZERO_KEY: &str = "age1qqqqqqqqqqqqqqqqqqqqqqqqqqqqqqqqqqqqqqqqqqqqqqqqqqqq5cu47z";

fn input(name: &str, data: &[u8]) -> InputFile {
    InputFile { name: name.to_string(), data: data.to_vec() }
}

#[test]
fn small_order_encodings_are_well_formed() {
    // The blocked strings really are parseable recipient encodings: the
    // screen exists because the parser accepts them.
    assert!(ZERO_KEY.parse::<age::x25519::Recipient>().is_ok());
    assert!(ZERO_KEY.to_uppercase().parse::<age::x25519::Recipient>().is_ok());
}

#[test]
fn screen_recognises_small_order_keys() {
    assert!(is_small_order_recipient(ZERO_KEY));
    assert!(is_small_order_recipient(&ZERO_KEY.to_uppercase()));
    let good = age::x25519::Identity::generate().to_public().to_string();
    assert!(!is_small_order_recipient(&good));
    assert!(!is_small_order_recipient("not a key"));
    assert!(all_recipients_screened(&vec![good]));
    assert!(!all_recipients_screened(&vec![ZERO_KEY.to_string()]));
}

#[test]
fn small_order_recipient_rejected_before_sealing() {
    let good = age::x25519::Identity::generate().to_public().to_string();
    let method = EncryptionMethod::Recipients(vec![good, ZERO_KEY.to_string()]);
    let inputs = vec![input("a.txt", b"hello")];
    let r = encrypt(&method, &inputs, "a.txt.age", false, false);
    assert!(matches!(r, Err(EncryptError::Crypto(_))));
}

#[test]
fn uppercase_small_order_recipient_rejected() {
    let method = EncryptionMethod::Recipients(vec![ZERO_KEY.to_uppercase()]);
    let inputs = vec![input("a.txt", b"hello")];
    let r = encrypt(&method, &inputs, "a.txt.age", false, false);
    assert!(matches!(r, Err(EncryptError::Crypto(_))));
}

#[test]
fn archive_rejects_parent_dir_entry_name() {
    let method = EncryptionMethod::Passphrase("secret1".to_string());
    let inputs = vec![input("..", b"escape"), input("b.txt", b"fine")];
    let r = encrypt(&method, &inputs, "archive.tar.age", false, false);
    assert!(matches!(r, Err(EncryptError::Archive(_))));
}

#[test]
fn separate_mode_ignores_entry_name_rules() {
    // Only archive mode serializes names into tar; separate mode encrypts
    // each file on its own and succeeds with the same inputs.
    let method = EncryptionMethod::Passphrase("secret1".to_string());
    let inputs = vec![input("b.txt", b"fine"), input("c.txt", b"also fine")];
    let r = encrypt(&method, &inputs, "outdir", false, true);
    assert!(r.is_ok());
}
