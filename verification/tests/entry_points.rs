use webdialog::backend::{all_handles, first_handle, first_path, run_dialog};
use webdialog::dialog::Event;
use webdialog::file_handle::{FileHandle, HandleError};
use webdialog::params::DialogParams;
use webdialog::{open, open_multiple, pick_file, pick_files, pick_folder, save_file};

#[test]
fn params_start_without_filters() {
    let p = DialogParams::new();
    assert!(p.filters.is_empty());
    assert_eq!(p.filter_count(), 0);
    let d: DialogParams = Default::default();
    assert!(d.filters.is_empty());
}

#[test]
fn set_filters_replaces_the_filters() {
    let filters = [("Text", "*.txt"), ("Images", "*.png")];
    let p = DialogParams::new().set_filters(&filters);
    assert_eq!(p.filters, &filters[..]);
    assert_eq!(p.filter_count(), 2);
    let one = [("All", "*")];
    let p = p.set_filters(&one);
    assert_eq!(p.filters, &one[..]);
}

#[test]
fn open_takes_the_first_path() {
    assert_eq!(open(Vec::new()), None);
    assert_eq!(open(vec![String::from("/a"), String::from("/b")]), Some(String::from("/a")));
}

#[test]
fn open_multiple_keeps_all_paths() {
    assert_eq!(open_multiple(Vec::new()), None);
    assert_eq!(
        open_multiple(vec![String::from("/a"), String::from("/b")]),
        Some(vec![String::from("/a"), String::from("/b")])
    );
}

#[test]
fn pick_file_gives_the_first_handle() {
    let events = vec![Event::Select(vec![8, 9]), Event::Click, Event::Select(vec![1]), Event::Click];
    assert_eq!(pick_file(None, &events), Some(FileHandle::Browser { file: 8 }));
    assert_eq!(pick_file(Some(DialogParams::new()), &vec![Event::Click]), None);
    assert_eq!(pick_file(None, &vec![Event::Select(vec![8])]), None);
}

#[test]
fn pick_files_gives_all_handles_in_order() {
    let events = vec![Event::Select(vec![8, 9]), Event::Click];
    assert_eq!(
        pick_files(None, &events),
        Some(vec![FileHandle::Browser { file: 8 }, FileHandle::Browser { file: 9 }])
    );
    assert_eq!(pick_files(None, &vec![Event::Click]), None);
    assert_eq!(pick_files(None, &Vec::new()), None);
}

#[test]
fn pick_folder_has_no_path_in_the_browser() {
    let filters = [("Any", "*")];
    let p = DialogParams::new().set_filters(&filters);
    assert_eq!(pick_folder(Some(p), &vec![Event::Click]), Ok(None));
    assert_eq!(
        pick_folder(None, &vec![Event::Select(vec![2]), Event::Click]),
        Err(HandleError::Unsupported)
    );
}

#[test]
fn save_file_has_no_path_in_the_browser() {
    assert_eq!(save_file(None, &Vec::new()), Ok(None));
    assert_eq!(
        save_file(None, &vec![Event::Select(vec![2]), Event::Click]),
        Err(HandleError::Unsupported)
    );
}

#[test]
fn run_dialog_yields_the_confirmed_selection() {
    let events = vec![Event::Select(vec![3, 1, 2]), Event::Click];
    let handles = run_dialog(&events);
    assert_eq!(
        handles,
        vec![
            FileHandle::Browser { file: 3 },
            FileHandle::Browser { file: 1 },
            FileHandle::Browser { file: 2 },
        ]
    );
    assert_eq!(run_dialog(&vec![Event::Select(vec![3])]), Vec::new());
}

#[test]
fn projections_of_a_selection() {
    let desk = FileHandle::Desktop { path: String::from("/home/u/f") };
    let web = FileHandle::Browser { file: 0 };
    assert_eq!(first_handle(Vec::new()), None);
    assert_eq!(first_handle(vec![desk.clone(), web.clone()]), Some(desk.clone()));
    assert_eq!(all_handles(Vec::new()), None);
    assert_eq!(all_handles(vec![web.clone(), desk.clone()]), Some(vec![web.clone(), desk.clone()]));
    assert_eq!(first_path(&Vec::new()), Ok(None));
    assert_eq!(first_path(&vec![desk.clone(), web.clone()]), Ok(Some(String::from("/home/u/f"))));
    assert_eq!(first_path(&vec![web, desk]), Err(HandleError::Unsupported));
}
