use std::io::Write;
use vstd::prelude::*;

verus! {

/// The gzip stream that flate2 writes for `data` at the default level.
pub uninterp spec fn gzip_of(data: Seq<u8>) -> Seq<u8>;

/// Relies on flate2's `GzEncoder` over a `Vec<u8>` at `Compression::default()`:
/// `write_all` then `finish` hand back the complete gzip stream of `data`,
/// which depends on `data` alone (the header carries time stamp 0 and a fixed
/// OS byte). Both report only the inner writer's errors, and a `Vec` raises
/// none.
#[verifier::external_body]
fn gzip_encode(data: &Vec<u8>) -> (r: Option<Vec<u8>>)
    ensures
        r is Some,
        r matches Some(v) ==> v@ == gzip_of(data@),
{
    let mut enc = flate2::write::GzEncoder::new(Vec::new(), flate2::Compression::default());
    if enc.write_all(data.as_slice()).is_err() {
        return None;
    }
    enc.finish().ok()
}

/// What the compressor does with a superseded file, given its contents.
#[derive(Clone, Debug)]
pub enum CompressPlan {
    /// The file is empty: delete it, write nothing.
    DeleteOriginal,
    /// Write these bytes to the `.gz` path; the original goes once they are
    /// all on disk.
    WriteArchive(Vec<u8>),
    /// Encoding failed: leave the original where it is.
    KeepOriginal,
}

/// What is removed once writing the archive has ended.
#[derive(Clone, Copy, Debug, PartialEq, Eq, Structural)]
pub enum Cleanup {
    /// The archive is complete: the original goes.
    RemoveOriginal,
    /// The archive is partial: it goes, and the original stays.
    RemoveArchive,
}

/// The plan for a file with `contents`, once the encoder has answered with
/// `encoded` (which is not consulted for an empty file).
pub open spec fn plan_given(contents: Seq<u8>, encoded: Option<Seq<u8>>, plan: CompressPlan) -> bool {
    if contents.len() == 0 {
        plan is DeleteOriginal
    } else {
        match encoded {
            Some(z) => plan matches CompressPlan::WriteArchive(v) && v@ == z,
            None => plan is KeepOriginal,
        }
    }
}

/// The plan that a file with `contents` gets: deletion if it is empty, else
/// its gzip stream.
pub open spec fn plan_fits(contents: Seq<u8>, plan: CompressPlan) -> bool {
    plan_given(contents, Some(gzip_of(contents)), plan)
}

pub open spec fn cleanup_for(archive_written: bool) -> Cleanup {
    if archive_written {
        Cleanup::RemoveOriginal
    } else {
        Cleanup::RemoveArchive
    }
}

/// Which of (original, archive) are on disk when a run that followed `plan`
/// has ended, every removal having succeeded; `archive_written` tells whether
/// the archive's bytes all reached the disk.
pub open spec fn files_left(plan: CompressPlan, archive_written: bool) -> (bool, bool) {
    match plan {
        CompressPlan::DeleteOriginal => (false, false),
        CompressPlan::KeepOriginal => (true, false),
        CompressPlan::WriteArchive(_) => match cleanup_for(archive_written) {
            Cleanup::RemoveOriginal => (false, true),
            Cleanup::RemoveArchive => (true, false),
        },
    }
}

/// The plan for a file with `contents`, given what the encoder returned.
pub fn plan_for_encoding(contents: &Vec<u8>, encoded: Option<Vec<u8>>) -> (r: CompressPlan)
    ensures
        plan_given(
            contents@,
            match encoded {
                Some(v) => Some(v@),
                None => None,
            },
            r,
        ),
{
    if contents.len() == 0 {
        CompressPlan::DeleteOriginal
    } else {
        match encoded {
            Some(v) => CompressPlan::WriteArchive(v),
            None => CompressPlan::KeepOriginal,
        }
    }
}

/// Plans the compression of a superseded file with `contents`: an empty file
/// is only deleted; otherwise the contents are gzip-encoded.
pub fn plan_compression(contents: &Vec<u8>) -> (r: CompressPlan)
    ensures
        plan_fits(contents@, r),
        contents@.len() == 0 ==> r is DeleteOriginal,
        contents@.len() > 0 ==> (r matches CompressPlan::WriteArchive(v) && v@ == gzip_of(contents@)),
{
    if contents.len() == 0 {
        CompressPlan::DeleteOriginal
    } else {
        let encoded = gzip_encode(contents);
        plan_for_encoding(contents, encoded)
    }
}

/// What to remove once the archive has been written, in full or not.
pub fn cleanup_after_write(archive_written: bool) -> (r: Cleanup)
    ensures
        r == cleanup_for(archive_written),
{
    if archive_written {
        Cleanup::RemoveOriginal
    } else {
        Cleanup::RemoveArchive
    }
}

/// A finished compression of a non-empty file leaves exactly one of the
/// original and its `.gz` copy on disk: never both, never neither. Once the
/// archive is written in full, it is the archive that stays, and it holds
/// the gzip stream of the original's contents.
pub proof fn lemma_exactly_one_copy(contents: Seq<u8>, plan: CompressPlan, archive_written: bool)
    requires
        contents.len() > 0,
        plan_fits(contents, plan),
    ensures
        files_left(plan, archive_written).0 != files_left(plan, archive_written).1,
        archive_written ==> files_left(plan, archive_written) == (false, true),
        plan matches CompressPlan::WriteArchive(v) && v@ == gzip_of(contents),
{
}

/// An empty superseded file is deleted, and no archive is made of it.
pub proof fn lemma_empty_file_deleted(contents: Seq<u8>, plan: CompressPlan, archive_written: bool)
    requires
        contents.len() == 0,
        plan_fits(contents, plan),
    ensures
        plan is DeleteOriginal,
        files_left(plan, archive_written) == (false, false),
{
}

} // verus!
