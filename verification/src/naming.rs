//! Derived file names for a job's on-disk artifacts.
//!
//! Each job's input is persisted under a unique opaque identifier, and the
//! normalized artifact lives at a path derived deterministically from the
//! input's path, so that concurrent batches never collide.

use vstd::prelude::*;
use vstd::string::StringExecFns;

verus! {

/// The path a job's uploaded bytes are persisted at, derived from the job's
/// unique identifier.
pub fn to_tmpfile_path(file_uuid: String) -> (r: String)
    ensures
        r@ == "./tmpfiles/"@ + file_uuid@ + "_blob"@,
{
    let prefix: String = "./tmpfiles/".to_owned();
    prefix.concat(file_uuid.as_str()).concat("_blob")
}

/// The path the normalized artifact for a given input file is written to.
pub fn to_outputfile_name(tmpfile_name: String) -> (r: String)
    ensures
        r@ == tmpfile_name@ + "_output.wav"@,
{
    tmpfile_name.concat("_output.wav")
}

} // verus!
