//! The entry points of the browser backend: each builds a dialog, shows it,
//! waits for the confirm button, tears the dialog down and shapes the result.

use vstd::prelude::*;
use crate::dialog::{resolution, Dialog, Event};
use crate::file_handle::{browser_handles, handle_views, FileHandle, HandleError, HandleView};
use crate::params::{DialogOptions, DialogParams};

verus! {

/// The native file objects that a fresh dialog yields over a run of events:
/// the selection at the first activation of the confirm button, and nothing
/// where the button is never activated.
pub open spec fn chosen(events: Seq<Event>) -> Seq<u64> {
    match resolution(Seq::<u64>::empty(), events) {
        Some(files) => files,
        None => Seq::<u64>::empty(),
    }
}

/// The path of the first handle of a selection: none for an empty selection,
/// and `Unsupported` where the first handle is a browser handle.
pub open spec fn first_path_of(handles: Seq<HandleView>) -> Result<Option<Seq<char>>, HandleError> {
    if handles.len() == 0 {
        Ok(None)
    } else {
        match handles[0] {
            HandleView::Browser { .. } => Err(HandleError::Unsupported),
            HandleView::Desktop { path } => Ok(Some(path)),
        }
    }
}

/// The view of a path result.
pub open spec fn path_view(r: Result<Option<String>, HandleError>) -> Result<
    Option<Seq<char>>,
    HandleError,
> {
    match r {
        Ok(Some(p)) => Ok(Some(p@)),
        Ok(None) => Ok(None),
        Err(e) => Err(e),
    }
}

/// Runs one dialog from construction to teardown over `events` and returns the
/// handles it yields, in order; none where the wait never resolves.
pub fn run_dialog(events: &Vec<Event>) -> (handles: Vec<FileHandle>)
    ensures
        handle_views(handles@) == browser_handles(chosen(events@)),
        handles@.len() == chosen(events@).len(),
        forall|i: int|
            0 <= i < handles@.len() ==> (#[trigger] handles@[i])@ == (HandleView::Browser {
                file: chosen(events@)[i],
            }),
{
    let mut dialog = Dialog::new();
    let opened = dialog.open(events);
    dialog.teardown();
    match opened {
        Some(handles) => {
            assert(handle_views(handles@).len() == handles@.len());
            assert(browser_handles(chosen(events@)).len() == chosen(events@).len());
            assert forall|i: int| 0 <= i < handles@.len() implies (#[trigger] handles@[i])@ == (
            HandleView::Browser { file: chosen(events@)[i] }) by {
                assert(handle_views(handles@)[i] == handles@[i]@);
                assert(browser_handles(chosen(events@))[i] == (HandleView::Browser {
                    file: chosen(events@)[i],
                }));
            }
            handles
        },
        None => {
            let handles: Vec<FileHandle> = Vec::new();
            assert(handle_views(handles@) =~= browser_handles(chosen(events@)));
            handles
        },
    }
}

/// The first handle of a selection, if there is one.
pub fn first_handle(handles: Vec<FileHandle>) -> (r: Option<FileHandle>)
    ensures
        handles@.len() == 0 ==> r.is_none(),
        handles@.len() > 0 ==> r == Some(handles@[0]),
{
    let mut handles = handles;
    if handles.len() == 0 {
        None
    } else {
        Some(handles.remove(0))
    }
}

/// The whole selection, or nothing where it is empty.
pub fn all_handles(handles: Vec<FileHandle>) -> (r: Option<Vec<FileHandle>>)
    ensures
        handles@.len() == 0 ==> r.is_none(),
        handles@.len() > 0 ==> r == Some(handles),
{
    if handles.len() == 0 {
        None
    } else {
        Some(handles)
    }
}

/// The path of the first handle of a selection.
pub fn first_path(handles: &Vec<FileHandle>) -> (r: Result<Option<String>, HandleError>)
    ensures
        path_view(r) == first_path_of(handle_views(handles@)),
{
    if handles.len() == 0 {
        Ok(None)
    } else {
        match handles[0].path() {
            Ok(p) => Ok(Some(p.to_owned())),
            Err(e) => Err(e),
        }
    }
}

fn options_or_default<'a>(params: Option<DialogOptions<'a>>) -> (options: DialogOptions<'a>)
    ensures
        options.filter_list() == match params {
            Some(p) => p.filter_list(),
            None => Seq::<(Seq<char>, Seq<char>)>::empty(),
        },
{
    match params {
        Some(p) => p,
        None => DialogParams::new(),
    }
}

/// Asks for one file: the handle of the first file selected when the confirm
/// button was activated, or nothing where none was selected.
pub fn pick_file<'a>(params: Option<DialogOptions<'a>>, events: &Vec<Event>) -> (r: Option<
    FileHandle,
>)
    ensures
        chosen(events@).len() == 0 ==> r.is_none(),
        chosen(events@).len() > 0 ==> (r matches Some(h) && h@ == (HandleView::Browser {
            file: chosen(events@)[0],
        })),
{
    let _options = options_or_default(params);
    let handles = run_dialog(events);
    assert(handles@.len() > 0 ==> handle_views(handles@)[0] == handles@[0]@);
    first_handle(handles)
}

/// Asks for several files: the handles of the files selected when the confirm
/// button was activated, in order, or nothing where none was selected.
pub fn pick_files<'a>(params: Option<DialogOptions<'a>>, events: &Vec<Event>) -> (r: Option<
    Vec<FileHandle>,
>)
    ensures
        chosen(events@).len() == 0 ==> r.is_none(),
        chosen(events@).len() > 0 ==> (r matches Some(handles) && handle_views(handles@)
            == browser_handles(chosen(events@))),
{
    let _options = options_or_default(params);
    let handles = run_dialog(events);
    all_handles(handles)
}

/// Asks for a folder, as a path. A selection made in the browser has no path:
/// nothing selected gives nothing, anything selected gives `Unsupported`.
pub fn pick_folder<'a>(params: Option<DialogOptions<'a>>, events: &Vec<Event>) -> (r: Result<
    Option<String>,
    HandleError,
>)
    ensures
        chosen(events@).len() == 0 ==> r == Ok::<Option<String>, HandleError>(None),
        chosen(events@).len() > 0 ==> r == Err::<Option<String>, HandleError>(
            HandleError::Unsupported,
        ),
{
    let _options = options_or_default(params);
    let handles = run_dialog(events);
    assert(handles@.len() > 0 ==> handle_views(handles@)[0] == handles@[0]@);
    first_path(&handles)
}

/// Asks where to save a file, as a path. A selection made in the browser has
/// no path: nothing selected gives nothing, anything selected gives
/// `Unsupported`.
pub fn save_file<'a>(params: Option<DialogOptions<'a>>, events: &Vec<Event>) -> (r: Result<
    Option<String>,
    HandleError,
>)
    ensures
        chosen(events@).len() == 0 ==> r == Ok::<Option<String>, HandleError>(None),
        chosen(events@).len() > 0 ==> r == Err::<Option<String>, HandleError>(
            HandleError::Unsupported,
        ),
{
    let _options = options_or_default(params);
    let handles = run_dialog(events);
    assert(handles@.len() > 0 ==> handle_views(handles@)[0] == handles@[0]@);
    first_path(&handles)
}

} // verus!
