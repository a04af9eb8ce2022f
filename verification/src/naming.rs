//! Output naming: the encryption suffix appended to a filename, the path of a
//! per-file artifact inside an output directory, and the defaults offered when
//! the user picks an output location.

use vstd::prelude::*;
use vstd::string::StringExecFns;

verus! {

/// Appends the encryption suffix to a filename: `report.pdf` becomes
/// `report.pdf.age`, and a name without an extension gains `.age` as one.
pub fn age_extension(name: &str) -> (r: String)
    ensures
        r@ == name@ + ".age"@,
{
    let mut out = String::from_str(name);
    out.append(".age");
    out
}

/// The path of the artifact for one input in separate mode: the base filename
/// with the encryption suffix, inside the chosen output directory.
pub fn separate_output_path(dir: &str, base_name: &str) -> (r: String)
    ensures
        r@ == dir@ + "/"@ + base_name@ + ".age"@,
{
    let mut out = String::from_str(dir);
    out.append("/");
    out.append(base_name);
    out.append(".age");
    out
}

/// The conventional default filename of a multi-file archive artifact.
pub fn default_archive_name() -> (r: String)
    ensures
        r@ == "archive.tar.age"@,
{
    String::from_str("archive.tar.age")
}

/// What kind of output location a request needs: a single file, or a
/// directory that per-file artifacts are placed in.
#[derive(Clone, Copy, Debug, PartialEq, Eq, Structural)]
pub enum OutputTarget {
    File,
    Directory,
}

/// The output location a request with `n_inputs` inputs asks the user for:
/// a directory exactly when several inputs are encrypted separately,
/// otherwise a single file.
pub fn output_target(n_inputs: usize, separate: bool) -> (r: OutputTarget)
    ensures
        r == (if n_inputs > 1 && separate {
            OutputTarget::Directory
        } else {
            OutputTarget::File
        }),
{
    if n_inputs > 1 && separate {
        OutputTarget::Directory
    } else {
        OutputTarget::File
    }
}

/// The default output filename offered to the user: the first input's name
/// with the encryption suffix for a single input, the conventional archive
/// name for several inputs bundled into one artifact, and none in separate
/// mode, where only a directory is chosen.
pub fn default_output_name(first_input: &str, n_inputs: usize, separate: bool) -> (r: Option<
    String,
>)
    ensures
        n_inputs <= 1 ==> (r matches Some(n) && n@ == first_input@ + ".age"@),
        n_inputs > 1 && !separate ==> (r matches Some(n) && n@ == "archive.tar.age"@),
        n_inputs > 1 && separate ==> r is None,
{
    if n_inputs <= 1 {
        Some(age_extension(first_input))
    } else if !separate {
        Some(default_archive_name())
    } else {
        None
    }
}

} // verus!
