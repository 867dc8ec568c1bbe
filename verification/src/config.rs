//! The one setting: which folder to watch.
use vstd::prelude::*;
use crate::error::ErrorKind;

verus! {

/// The name of the environment variable that holds the path of the watched
/// folder.
pub const FOLDER_VARIABLE: &'static str = "DOWNLOAD_FOLDER_PATH";

/// The watched folder, given what the environment holds under
/// `FOLDER_VARIABLE`: `None` where the variable is not set or is no text. A
/// path, absolute or relative, is taken as it is; without one there is a
/// failure of kind `Configuration`.
pub fn watched_folder(setting: Option<String>) -> (folder: Result<String, ErrorKind>)
    ensures
        match setting {
            Some(path) => folder == Ok::<String, ErrorKind>(path),
            None => folder == Err::<String, ErrorKind>(ErrorKind::Configuration),
        },
{
    match setting {
        Some(path) => Ok(path),
        None => Err(ErrorKind::Configuration),
    }
}

} // verus!
