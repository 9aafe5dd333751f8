//! Processing in one call, from bytes or from a loaded file to text.

use crate::zip::{process_file_result, process_result, text_result, Load, Zip};
use vstd::prelude::*;
use vstd::string::*;

verus! {

/// Decodes the archive of a load of the file at `path` and renders it: the
/// dump if `verbose` is set, else the summary.
pub fn process_file(path: &str, load: Load, verbose: bool) -> (r: Result<String, String>)
    ensures
        text_result(r) == process_file_result(path@, load, verbose),
{
    Zip::from(path, load)?.output(verbose)
}

/// Decodes the archive that `bytes` hold and renders it: the dump if `verbose`
/// is set, else the summary.
pub fn process(bytes: &[u8], verbose: bool) -> (r: Result<String, String>)
    ensures
        text_result(r) == process_result(bytes@, verbose),
{
    Zip::process(bytes)?.output(verbose)
}

/// Checks what a run was asked for: at least one file must be named. Gives
/// whether the dump was asked for, which any count of the flag above zero does.
pub fn check_args(files: &[String], verbose: u8) -> (r: Result<bool, String>)
    ensures
        files@.len() == 0 ==> r is Err && r.unwrap_err()@
            == "No files provided. Run with `-h` to view usage."@,
        files@.len() > 0 ==> r == Ok::<bool, String>(verbose > 0),
{
    if files.len() < 1 {
        return Err(String::from_str("No files provided. Run with `-h` to view usage."));
    }
    Ok(verbose > 0)
}

} // verus!
