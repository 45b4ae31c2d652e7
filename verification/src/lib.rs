//! A file-selection dialog for the browser, as a verified lifecycle model,
//! with the shared parameter and result shapes of the desktop entry points.

use vstd::prelude::*;

pub mod backend;
pub mod dialog;
pub mod file_handle;
pub mod params;
pub mod scene;

pub use backend::{pick_file, pick_files, pick_folder, save_file};
pub use dialog::{Dialog, Event, Phase};
pub use file_handle::{FileHandle, FileStore, HandleError, ReadOutcome};
pub use params::{DialogOptions, DialogParams};
pub use scene::{DomAction, Place, Role, Scene};

verus! {

/// The result of a desktop dialog for one file, asked with nothing configured:
/// the first path the native dialog reported, or nothing where it reported none.
pub fn open(reply: Vec<String>) -> (r: Option<String>)
    ensures
        reply@.len() == 0 ==> r.is_none(),
        reply@.len() > 0 ==> r == Some(reply@[0]),
{
    let mut reply = reply;
    if reply.len() == 0 {
        None
    } else {
        Some(reply.remove(0))
    }
}

/// The result of a desktop dialog for several files, asked with nothing
/// configured: the paths the native dialog reported, in order, or nothing where
/// it reported none.
pub fn open_multiple(reply: Vec<String>) -> (r: Option<Vec<String>>)
    ensures
        reply@.len() == 0 ==> r.is_none(),
        reply@.len() > 0 ==> r == Some(reply),
{
    if reply.len() == 0 {
        None
    } else {
        Some(reply)
    }
}

} // verus!
