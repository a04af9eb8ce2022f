//! A verified core for a file-encryption tool: given a set of input files and
//! an encryption method (public-key recipients or a passphrase), it produces
//! age-format encrypted artifacts, optionally ASCII-armored, and bundles
//! multiple inputs into a tar archive unless they are encrypted separately.

pub mod archive;
pub mod backend;
pub mod cipher;
pub mod method;
pub mod naming;
pub mod screen;
pub mod task;
