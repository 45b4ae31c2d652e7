use webdialog::dialog::{Dialog, Event, Phase};
use webdialog::file_handle::{FileHandle, FileStore, HandleError, ReadOutcome};
use webdialog::scene::{DomAction, Place, Role, Scene};

fn browser(file: u64) -> FileHandle {
    FileHandle::Browser { file }
}

#[test]
fn new_dialog_is_assembled_and_off_the_host() {
    let d = Dialog::new();
    let s = d.layout();
    assert_eq!(d.state(), Phase::Idle);
    assert_eq!(s.overlay, Place::Detached);
    assert_eq!(s.card, Place::Inside(Role::Overlay));
    assert_eq!(s.input, Place::Inside(Role::Card));
    assert_eq!(s.button, Place::Inside(Role::Card));
    assert_eq!(s.style, Place::Inside(Role::Overlay));
    assert_eq!(s.handlers, 0);
    assert_eq!(s.host_children(), 0);
    assert_eq!(s.attached_count(), 4);
}

#[test]
fn construction_plan_is_exact() {
    let plan = Dialog::construction_plan();
    assert_eq!(
        plan,
        vec![
            DomAction::Create(Role::Overlay),
            DomAction::Create(Role::Card),
            DomAction::Append { child: Role::Card, parent: Role::Overlay },
            DomAction::Create(Role::Input),
            DomAction::Append { child: Role::Input, parent: Role::Card },
            DomAction::Create(Role::Button),
            DomAction::Append { child: Role::Button, parent: Role::Card },
            DomAction::Create(Role::Style),
            DomAction::Append { child: Role::Style, parent: Role::Overlay },
        ]
    );
    assert_eq!(Scene::blank().perform(&plan), Dialog::new().layout());
}

#[test]
fn roles_have_their_tags_and_identifiers() {
    assert_eq!(Role::Overlay.tag(), "div");
    assert_eq!(Role::Card.tag(), "div");
    assert_eq!(Role::Input.tag(), "input");
    assert_eq!(Role::Button.tag(), "button");
    assert_eq!(Role::Style.tag(), "style");
    assert_eq!(Role::Overlay.element_id(), Some("rfd-overlay"));
    assert_eq!(Role::Card.element_id(), Some("rfd-card"));
    assert_eq!(Role::Input.element_id(), Some("rfd-input"));
    assert_eq!(Role::Button.element_id(), Some("rfd-button"));
    assert_eq!(Role::Style.element_id(), None);
    assert_eq!(Role::Button.label(), Some("Ok"));
    assert_eq!(Role::Input.label(), None);
    assert_eq!(Role::Input.input_kind(), Some("file"));
    assert_eq!(Role::Button.input_kind(), None);
}

#[test]
fn begin_open_listens_then_attaches() {
    let mut d = Dialog::new();
    let plan = d.begin_open();
    assert_eq!(plan, vec![DomAction::Listen, DomAction::Attach(Role::Overlay)]);
    assert_eq!(d.state(), Phase::Waiting);
    assert_eq!(d.layout().overlay, Place::Host);
    assert_eq!(d.layout().handlers, 1);
    assert_eq!(d.layout().host_children(), 1);
}

#[test]
fn closing_plan_removes_the_overlay() {
    assert_eq!(Dialog::closing_plan(), vec![DomAction::Remove(Role::Overlay)]);
}

#[test]
fn open_resolves_once_with_the_first_selection() {
    let mut d = Dialog::new();
    let events = vec![
        Event::Select(vec![1, 2]),
        Event::Click,
        Event::Select(vec![3]),
        Event::Click,
        Event::Click,
    ];
    let handles = d.open(&events);
    assert_eq!(handles, Some(vec![browser(1), browser(2)]));
    assert_eq!(d.state(), Phase::Idle);
    assert_eq!(d.layout().overlay, Place::Detached);
}

#[test]
fn later_clicks_do_not_change_the_result() {
    let mut one = Dialog::new();
    let mut many = Dialog::new();
    let short = vec![Event::Select(vec![7]), Event::Click];
    let long = vec![
        Event::Select(vec![7]),
        Event::Click,
        Event::Click,
        Event::Select(vec![]),
        Event::Click,
    ];
    assert_eq!(one.open(&short), many.open(&long));
}

#[test]
fn click_resolves_only_while_waiting() {
    let mut d = Dialog::new();
    assert!(!d.click());
    assert_eq!(d.state(), Phase::Idle);
    d.begin_open();
    d.select(vec![4, 5]);
    assert!(d.click());
    assert_eq!(d.state(), Phase::Resolved);
    d.select(vec![9]);
    assert!(!d.click());
    assert_eq!(d.finish_open(), Some(vec![browser(4), browser(5)]));
    assert_eq!(d.state(), Phase::Idle);
    assert!(!d.click());
}

#[test]
fn finish_open_while_waiting_returns_nothing() {
    let mut d = Dialog::new();
    assert_eq!(d.finish_open(), None);
    d.begin_open();
    assert_eq!(d.finish_open(), None);
    assert_eq!(d.state(), Phase::Waiting);
    assert_eq!(d.layout().overlay, Place::Host);
}

#[test]
fn open_without_click_stays_suspended() {
    let mut d = Dialog::new();
    let r = d.open(&vec![Event::Select(vec![1])]);
    assert_eq!(r, None);
    assert_eq!(d.state(), Phase::Waiting);
    assert_eq!(d.layout().host_children(), 1);
    d.deliver(&Event::Click);
    assert_eq!(d.finish_open(), Some(vec![browser(1)]));
    assert_eq!(d.layout().host_children(), 0);
}

#[test]
fn empty_selection_is_an_empty_sequence() {
    let mut d = Dialog::new();
    let r = d.open(&vec![Event::Click]);
    assert_eq!(r, Some(Vec::new()));
    let mut e = Dialog::new();
    let r = e.open(&vec![Event::Select(vec![1]), Event::Select(vec![]), Event::Click]);
    assert_eq!(r, Some(Vec::new()));
}

#[test]
fn dialog_can_be_opened_again() {
    let mut d = Dialog::new();
    assert_eq!(d.open(&vec![Event::Select(vec![1]), Event::Click]), Some(vec![browser(1)]));
    assert_eq!(d.open(&vec![Event::Click]), Some(vec![browser(1)]));
    assert_eq!(d.open(&vec![Event::Select(vec![2]), Event::Click]), Some(vec![browser(2)]));
    assert_eq!(d.layout().handlers, 1);
}

#[test]
fn teardown_before_open() {
    let mut d = Dialog::new();
    let plan = d.teardown();
    assert_eq!(
        plan,
        vec![
            DomAction::Remove(Role::Button),
            DomAction::Remove(Role::Input),
            DomAction::Remove(Role::Card),
            DomAction::Remove(Role::Style),
            DomAction::Remove(Role::Overlay),
        ]
    );
    assert_eq!(d.state(), Phase::Closed);
    assert_eq!(d.layout().attached_count(), 0);
    assert_eq!(d.layout().host_children(), 0);
}

#[test]
fn teardown_while_suspended() {
    let mut d = Dialog::new();
    d.begin_open();
    assert_eq!(d.layout().attached_count(), 5);
    d.teardown();
    assert_eq!(d.layout().attached_count(), 0);
    assert_eq!(d.layout().host_children(), 0);
    assert_eq!(d.state(), Phase::Closed);
}

#[test]
fn teardown_after_open_completed() {
    let mut d = Dialog::new();
    d.open(&vec![Event::Click]);
    d.teardown();
    assert_eq!(d.layout().attached_count(), 0);
    assert_eq!(d.layout(), Scene { handlers: 1, ..Scene::blank() });
}

#[test]
fn teardown_twice_is_harmless() {
    let mut d = Dialog::new();
    d.begin_open();
    d.click();
    d.teardown();
    let once = d.layout();
    d.teardown();
    assert_eq!(d.layout(), once);
    assert!(!d.click());
    assert_eq!(d.finish_open(), None);
}

#[test]
fn scene_apply_moves_one_element() {
    let s = Scene::blank().apply(DomAction::Attach(Role::Card));
    assert_eq!(s.place(Role::Card), Place::Host);
    assert_eq!(s.place(Role::Overlay), Place::Detached);
    let s = s.apply(DomAction::Append { child: Role::Input, parent: Role::Card });
    assert_eq!(s.place(Role::Input), Place::Inside(Role::Card));
    assert_eq!(s.attached_count(), 2);
    assert_eq!(s.host_children(), 1);
    let s = s.apply(DomAction::Remove(Role::Card)).apply(DomAction::Create(Role::Input));
    assert_eq!(s.attached_count(), 0);
    assert_eq!(s.apply(DomAction::Listen).handlers, 1);
}

#[test]
fn end_to_end_two_files() {
    let mut store = FileStore::new();
    let ten = store.add(vec![0, 1, 2, 3, 4, 5, 6, 7, 8, 9]);
    let none = store.add(Vec::new());
    let mut d = Dialog::new();
    let handles = d.open(&vec![Event::Select(vec![ten, none]), Event::Click]).unwrap();
    assert_eq!(handles.len(), 2);
    assert_eq!(handles[0].read(&store), Ok(vec![0, 1, 2, 3, 4, 5, 6, 7, 8, 9]));
    assert_eq!(handles[1].read(&store), Ok(Vec::new()));
    assert_eq!(d.layout().host_children(), 0);
    d.teardown();
    assert_eq!(d.layout().attached_count(), 0);
    assert_eq!(handles[0].read(&store).unwrap().len(), 10);
    assert_eq!(handles[1].read(&store).unwrap().len(), 0);
}

#[test]
fn read_twice_gives_equal_independent_buffers() {
    let mut store = FileStore::new();
    let id = store.add(vec![5, 6, 7]);
    let h = browser(id);
    let mut a = h.read(&store).unwrap();
    let b = h.read(&store).unwrap();
    assert_eq!(a, b);
    assert_eq!(a.len(), 3);
    a[0] = 99;
    assert_eq!(b, vec![5, 6, 7]);
    assert_eq!(h.read(&store), Ok(vec![5, 6, 7]));
}

#[test]
fn read_failure_is_not_an_empty_file() {
    let mut store = FileStore::new();
    let empty = store.add(Vec::new());
    assert_eq!(browser(empty).read(&store), Ok(Vec::new()));
    assert_eq!(browser(empty + 1).read(&store), Err(HandleError::ReadFailed));
    assert_eq!(browser(0).finish_read(&ReadOutcome::Failed), Err(HandleError::ReadFailed));
    assert_eq!(browser(0).finish_read(&ReadOutcome::Loaded(vec![1, 2])), Ok(vec![1, 2]));
}

#[test]
fn store_numbers_files_in_order() {
    let mut store = FileStore::new();
    assert_eq!(store.len(), 0);
    assert_eq!(store.add(vec![1]), 0);
    assert_eq!(store.add(vec![2, 3]), 1);
    assert_eq!(store.len(), 2);
    assert_eq!(store.fetch(1), ReadOutcome::Loaded(vec![2, 3]));
    assert_eq!(store.fetch(2), ReadOutcome::Failed);
}

#[test]
fn browser_handle_has_no_path() {
    let h = browser(3);
    assert_eq!(h.path(), Err(HandleError::Unsupported));
    assert_eq!(h.inner(), Some(3));
    assert_eq!(h.web_sys_file(), Some(3));
}

#[test]
fn desktop_handle_has_a_path_and_no_read() {
    let h = FileHandle::Desktop { path: String::from("/tmp/a.txt") };
    assert_eq!(h.path(), Ok("/tmp/a.txt"));
    assert_eq!(h.inner(), None);
    assert_eq!(h.web_sys_file(), None);
    let store = FileStore::new();
    assert_eq!(h.read(&store), Err(HandleError::Unsupported));
    assert_eq!(h.finish_read(&ReadOutcome::Loaded(vec![1])), Err(HandleError::Unsupported));
}
