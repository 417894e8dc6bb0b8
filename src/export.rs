use vstd::prelude::*;
use crate::pipeline::{prefixed, with_prefix};

verus! {

/// A copy of one file to a chosen place.
pub struct CopyRequest {
    pub from: String,
    pub to: String,
}

/// The file name offered when saving a stem of kind `track_type`.
pub fn suggested_file_name(track_type: &str) -> (r: String)
    ensures
        r@ == track_type@ + ".wav"@,
{
    String::from_str(track_type).concat(".wav")
}

/// The copy to make once the user has chosen a destination, or the
/// "Save cancelled" outcome where the user chose none.
pub fn plan_export(source_path: String, destination: Option<String>) -> (r: Result<CopyRequest, String>)
    ensures
        destination is None ==> (r matches Err(e) && e@ == "Save cancelled"@),
        destination matches Some(d) ==> (r matches Ok(c) && c.from == source_path && c.to == d),
{
    match destination {
        Some(to) => Ok(CopyRequest { from: source_path, to }),
        None => Err(String::from_str("Save cancelled")),
    }
}

/// The outcome of an export once its copy was tried.
pub fn export_result(copied: Result<(), String>) -> (r: Result<(), String>)
    ensures
        copied is Ok <==> r is Ok,
        copied matches Err(e) ==> (r matches Err(m) && m@ == prefixed("Failed to save file: ", e@)),
{
    match copied {
        Ok(()) => Ok(()),
        Err(e) => Err(with_prefix("Failed to save file: ", e.as_str())),
    }
}

/// The application's data directory, or the error shown where it is unknown.
pub fn app_data_dir_result(dir: Option<String>) -> (r: Result<String, String>)
    ensures
        dir matches Some(d) ==> (r matches Ok(p) && p == d),
        dir is None ==> (r matches Err(e) && e@ == "Failed to get app data directory"@),
{
    match dir {
        Some(d) => Ok(d),
        None => Err(String::from_str("Failed to get app data directory")),
    }
}

} // verus!
