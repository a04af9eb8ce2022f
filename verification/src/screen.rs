//! Screening of recipient encodings that must never reach the encryption
//! layer: the textual forms of the small-order curve points. Every
//! Diffie-Hellman shared secret computed against such a public key is all
//! zeros, whatever the ephemeral scalar, and the encryption layer aborts the
//! process when it sees one; the backend therefore refuses these encodings
//! up front and the sealing step may assume they are gone.

use vstd::prelude::*;
use vstd::string::StringExecFns;

verus! {

/// `s` is a textual encoding of a small-order curve point: one of the
/// fourteen 32-byte strings whose Diffie-Hellman output is all zeros for
/// every scalar (the neutral and low-order points, in both canonical form
/// and with the ignored top bit set), in lower or upper case — the two
/// casings the recipient parser accepts.
pub open spec fn small_order_recipient_str(s: Seq<char>) -> bool {
    ||| s == "age1qqqqqqqqqqqqqqqqqqqqqqqqqqqqqqqqqqqqqqqqqqqqqqqqqqqq5cu47z"@
    ||| s == "AGE1QQQQQQQQQQQQQQQQQQQQQQQQQQQQQQQQQQQQQQQQQQQQQQQQQQQQ5CU47Z"@
    ||| s == "age1qyqqqqqqqqqqqqqqqqqqqqqqqqqqqqqqqqqqqqqqqqqqqqqqqqqqj7vrya"@
    ||| s == "AGE1QYQQQQQQQQQQQQQQQQQQQQQQQQQQQQQQQQQQQQQQQQQQQQQQQQQQJ7VRYA"@
    ||| s == "age1ur4h5lpmgxu2u9jku0a0r87ydtdqnr0tnsetrlvxvgz3vh6fhqqqzyt4v9"@
    ||| s == "AGE1UR4H5LPMGXU2U9JKU0A0R87YDTDQNR0TNSETRLVXVGZ3VH6FHQQQZYT4V9"@
    ||| s == "age1t7wft09r2zxzfvwsk92eeql0tvzyghxytqwgapkcyf8dm5ylz9ts6wm9s8"@
    ||| s == "AGE1T7WFT09R2ZXZFVWSK92EEQL0TVZYGHXYTQWGAPKCYF8DM5YLZ9TS6WM9S8"@
    ||| s == "age1anlllllllllllllllllllllllllllllllllllllllllllllllals4n2t7m"@
    ||| s == "AGE1ANLLLLLLLLLLLLLLLLLLLLLLLLLLLLLLLLLLLLLLLLLLLLLLLALS4N2T7M"@
    ||| s == "age1ahlllllllllllllllllllllllllllllllllllllllllllllllalsn46ayy"@
    ||| s == "AGE1AHLLLLLLLLLLLLLLLLLLLLLLLLLLLLLLLLLLLLLLLLLLLLLLLALSN46AYY"@
    ||| s == "age1amlllllllllllllllllllllllllllllllllllllllllllllllalselrwrv"@
    ||| s == "AGE1AMLLLLLLLLLLLLLLLLLLLLLLLLLLLLLLLLLLLLLLLLLLLLLLLALSELRWRV"@
    ||| s == "age1qqqqqqqqqqqqqqqqqqqqqqqqqqqqqqqqqqqqqqqqqqqqqqqqqzqqsuwj9m"@
    ||| s == "AGE1QQQQQQQQQQQQQQQQQQQQQQQQQQQQQQQQQQQQQQQQQQQQQQQQQZQQSUWJ9M"@
    ||| s == "age1qyqqqqqqqqqqqqqqqqqqqqqqqqqqqqqqqqqqqqqqqqqqqqqqqzqqk67yly"@
    ||| s == "AGE1QYQQQQQQQQQQQQQQQQQQQQQQQQQQQQQQQQQQQQQQQQQQQQQQQZQQK67YLY"@
    ||| s == "age1ur4h5lpmgxu2u9jku0a0r87ydtdqnr0tnsetrlvxvgz3vh6fhzqqxqejhu"@
    ||| s == "AGE1UR4H5LPMGXU2U9JKU0A0R87YDTDQNR0TNSETRLVXVGZ3VH6FHZQQXQEJHU"@
    ||| s == "age1t7wft09r2zxzfvwsk92eeql0tvzyghxytqwgapkcyf8dm5ylz8ts72fzt7"@
    ||| s == "AGE1T7WFT09R2ZXZFVWSK92EEQL0TVZYGHXYTQWGAPKCYF8DM5YLZ8TS72FZT7"@
    ||| s == "age1anllllllllllllllllllllllllllllllllllllllllllllllllls3hcv9z"@
    ||| s == "AGE1ANLLLLLLLLLLLLLLLLLLLLLLLLLLLLLLLLLLLLLLLLLLLLLLLLLS3HCV9Z"@
    ||| s == "age1ahlllllllllllllllllllllllllllllllllllllllllllllllllsh3g6la"@
    ||| s == "AGE1AHLLLLLLLLLLLLLLLLLLLLLLLLLLLLLLLLLLLLLLLLLLLLLLLLLSH3G6LA"@
    ||| s == "age1amlllllllllllllllllllllllllllllllllllllllllllllllllsam3fc4"@
    ||| s == "AGE1AMLLLLLLLLLLLLLLLLLLLLLLLLLLLLLLLLLLLLLLLLLLLLLLLLLSAM3FC4"@
}

/// Whether `s` encodes one of the small-order points, exactly as
/// `small_order_recipient_str` states it.
pub fn is_small_order_recipient(s: &str) -> (r: bool)
    ensures
        r == small_order_recipient_str(s@),
{
    let t = String::from_str(s);
    t == String::from_str("age1qqqqqqqqqqqqqqqqqqqqqqqqqqqqqqqqqqqqqqqqqqqqqqqqqqqq5cu47z")
        || t == String::from_str("AGE1QQQQQQQQQQQQQQQQQQQQQQQQQQQQQQQQQQQQQQQQQQQQQQQQQQQQ5CU47Z")
        || t == String::from_str("age1qyqqqqqqqqqqqqqqqqqqqqqqqqqqqqqqqqqqqqqqqqqqqqqqqqqqj7vrya")
        || t == String::from_str("AGE1QYQQQQQQQQQQQQQQQQQQQQQQQQQQQQQQQQQQQQQQQQQQQQQQQQQQJ7VRYA")
        || t == String::from_str("age1ur4h5lpmgxu2u9jku0a0r87ydtdqnr0tnsetrlvxvgz3vh6fhqqqzyt4v9")
        || t == String::from_str("AGE1UR4H5LPMGXU2U9JKU0A0R87YDTDQNR0TNSETRLVXVGZ3VH6FHQQQZYT4V9")
        || t == String::from_str("age1t7wft09r2zxzfvwsk92eeql0tvzyghxytqwgapkcyf8dm5ylz9ts6wm9s8")
        || t == String::from_str("AGE1T7WFT09R2ZXZFVWSK92EEQL0TVZYGHXYTQWGAPKCYF8DM5YLZ9TS6WM9S8")
        || t == String::from_str("age1anlllllllllllllllllllllllllllllllllllllllllllllllals4n2t7m")
        || t == String::from_str("AGE1ANLLLLLLLLLLLLLLLLLLLLLLLLLLLLLLLLLLLLLLLLLLLLLLLALS4N2T7M")
        || t == String::from_str("age1ahlllllllllllllllllllllllllllllllllllllllllllllllalsn46ayy")
        || t == String::from_str("AGE1AHLLLLLLLLLLLLLLLLLLLLLLLLLLLLLLLLLLLLLLLLLLLLLLLALSN46AYY")
        || t == String::from_str("age1amlllllllllllllllllllllllllllllllllllllllllllllllalselrwrv")
        || t == String::from_str("AGE1AMLLLLLLLLLLLLLLLLLLLLLLLLLLLLLLLLLLLLLLLLLLLLLLLALSELRWRV")
        || t == String::from_str("age1qqqqqqqqqqqqqqqqqqqqqqqqqqqqqqqqqqqqqqqqqqqqqqqqqzqqsuwj9m")
        || t == String::from_str("AGE1QQQQQQQQQQQQQQQQQQQQQQQQQQQQQQQQQQQQQQQQQQQQQQQQQZQQSUWJ9M")
        || t == String::from_str("age1qyqqqqqqqqqqqqqqqqqqqqqqqqqqqqqqqqqqqqqqqqqqqqqqqzqqk67yly")
        || t == String::from_str("AGE1QYQQQQQQQQQQQQQQQQQQQQQQQQQQQQQQQQQQQQQQQQQQQQQQQZQQK67YLY")
        || t == String::from_str("age1ur4h5lpmgxu2u9jku0a0r87ydtdqnr0tnsetrlvxvgz3vh6fhzqqxqejhu")
        || t == String::from_str("AGE1UR4H5LPMGXU2U9JKU0A0R87YDTDQNR0TNSETRLVXVGZ3VH6FHZQQXQEJHU")
        || t == String::from_str("age1t7wft09r2zxzfvwsk92eeql0tvzyghxytqwgapkcyf8dm5ylz8ts72fzt7")
        || t == String::from_str("AGE1T7WFT09R2ZXZFVWSK92EEQL0TVZYGHXYTQWGAPKCYF8DM5YLZ8TS72FZT7")
        || t == String::from_str("age1anllllllllllllllllllllllllllllllllllllllllllllllllls3hcv9z")
        || t == String::from_str("AGE1ANLLLLLLLLLLLLLLLLLLLLLLLLLLLLLLLLLLLLLLLLLLLLLLLLLS3HCV9Z")
        || t == String::from_str("age1ahlllllllllllllllllllllllllllllllllllllllllllllllllsh3g6la")
        || t == String::from_str("AGE1AHLLLLLLLLLLLLLLLLLLLLLLLLLLLLLLLLLLLLLLLLLLLLLLLLLSH3G6LA")
        || t == String::from_str("age1amlllllllllllllllllllllllllllllllllllllllllllllllllsam3fc4")
        || t == String::from_str("AGE1AMLLLLLLLLLLLLLLLLLLLLLLLLLLLLLLLLLLLLLLLLLLLLLLLLLSAM3FC4")
}

} // verus!
