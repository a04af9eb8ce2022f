//! Bundling several input files into one tar-format stream before it is
//! encrypted as a single artifact. Each input becomes one entry, named by the
//! input's base filename, contents unchanged, in input order; the stream ends
//! with the format's terminating blocks. `tar_stream` names the serialized
//! form of a sequence of entries.

use crate::backend::InputFile;
use vstd::prelude::*;

verus! {

/// Holds the tar crate's archive builder over an in-memory sink. Verus sees
/// nothing inside it; what it has accumulated is spoken of only through
/// `tar_entries`.
#[verifier::external_body]
pub struct ArchiveBuilder {
    inner: tar::Builder<Vec<u8>>,
}

/// The entries appended to a builder so far, in order: base filename and
/// contents of each.
pub uninterp spec fn tar_entries(b: ArchiveBuilder) -> Seq<(Seq<char>, Seq<u8>)>;

/// The serialized tar stream holding exactly `entries`, in order, followed by
/// the format's terminating blocks.
pub uninterp spec fn tar_stream(entries: Seq<(Seq<char>, Seq<u8>)>) -> Seq<u8>;

/// Whether `name` can head an archive entry. Appending fails for reasons the
/// name alone determines (an empty, absolute or `..` name, or an embedded
/// nul), never because of the data: the archive is written into memory.
pub uninterp spec fn tar_name_ok(name: Seq<char>) -> bool;

/// A plainly acceptable entry name, for which appending is owed to succeed:
/// printable ASCII without `/`, neither `.` nor `..`, at most 100 characters
/// (longer names also work, through an extension record, but this short form
/// is all the backend promises on).
pub open spec fn plain_entry_name(name: Seq<char>) -> bool {
    &&& 1 <= name.len() <= 100
    &&& name != "."@
    &&& name != ".."@
    &&& forall|j: int|
        0 <= j < name.len() ==> ' ' <= #[trigger] name[j] <= '~' && name[j] != '/'
}

/// Relies on `tar::Builder::new`: a fresh builder over an empty in-memory
/// sink holds no entries.
#[verifier::external_body]
fn tar_new() -> (b: ArchiveBuilder)
    ensures
        tar_entries(b) == Seq::<(Seq<char>, Seq<u8>)>::empty(),
{
    ArchiveBuilder { inner: tar::Builder::new(Vec::new()) }
}

/// Relies on `tar::Builder::append_data` (with a fresh `tar::Header` whose
/// size is the data's length): appends one entry named `name` whose contents
/// are `data`. Whether it succeeds depends on the name alone — the data is
/// read from memory and written into memory, which cannot fail — and an
/// ordinary relative filename is always accepted.
#[verifier::external_body]
fn tar_append(b: &mut ArchiveBuilder, name: &str, data: &Vec<u8>) -> (r: Result<
    (),
    String,
>)
    ensures
        r is Ok <==> tar_name_ok(name@),
        plain_entry_name(name@) ==> r is Ok,
        r is Ok ==> tar_entries(*final(b)) == tar_entries(*old(b)).push((name@, data@)),
{
    let mut header = tar::Header::new_gnu();
    header.set_size(data.len() as u64);
    b.inner.append_data(&mut header, name, data.as_slice()).map_err(|e| e.to_string())
}

/// Relies on `tar::Builder::into_inner`: writes the terminating blocks and
/// hands back the sink, which then holds the serialized stream of exactly
/// the appended entries. It cannot fail: the terminator is written into the
/// in-memory sink.
#[verifier::external_body]
fn tar_finish(b: ArchiveBuilder) -> (r: Result<Vec<u8>, String>)
    ensures
        r is Ok,
        r matches Ok(bytes) ==> bytes@ == tar_stream(tar_entries(b)),
{
    b.inner.into_inner().map_err(|e| e.to_string())
}

/// The archive entries a list of input files turns into: one per input, in
/// input order, named by the input's base filename, contents unchanged.
pub open spec fn entry_seq(inputs: Seq<InputFile>) -> Seq<(Seq<char>, Seq<u8>)> {
    inputs.map_values(|f: InputFile| (f.name@, f.data@))
}

/// Serializes all inputs into one tar stream: one entry per input, named by
/// its base filename, contents unchanged, in input order. It succeeds
/// exactly when every entry name is acceptable — in particular whenever all
/// names are plain — and a failure while appending aborts the whole build.
pub fn build_archive(inputs: &Vec<InputFile>) -> (r: Result<Vec<u8>, String>)
    ensures
        r matches Ok(bytes) ==> bytes@ == tar_stream(entry_seq(inputs@)),
        r is Ok <==> (forall|i: int|
            0 <= i < inputs@.len() ==> tar_name_ok(#[trigger] inputs@[i].name@)),
        (forall|i: int|
            0 <= i < inputs@.len() ==> plain_entry_name(#[trigger] inputs@[i].name@)) ==> r is Ok,
{
    let mut b = tar_new();
    let mut i: usize = 0;
    while i < inputs.len()
        invariant
            0 <= i <= inputs@.len(),
            tar_entries(b) == entry_seq(inputs@.take(i as int)),
            forall|j: int| 0 <= j < i ==> tar_name_ok(#[trigger] inputs@[j].name@),
        decreases inputs@.len() - i,
    {
        let appended = tar_append(&mut b, inputs[i].name.as_str(), &inputs[i].data);
        match appended {
            Ok(()) => {},
            Err(e) => {
                return Err(e);
            },
        }
        proof {
            assert(entry_seq(inputs@.take(i + 1 as int)) == entry_seq(
                inputs@.take(i as int),
            ).push((inputs@[i as int].name@, inputs@[i as int].data@))) by {
                assert(entry_seq(inputs@.take(i + 1 as int)) =~= entry_seq(
                    inputs@.take(i as int),
                ).push((inputs@[i as int].name@, inputs@[i as int].data@)));
            }
        }
        i += 1;
    }
    proof {
        assert(inputs@.take(inputs@.len() as int) =~= inputs@);
    }
    tar_finish(b)
}

} // verus!
