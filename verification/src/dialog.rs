//! The dialog: five owned elements, a one-shot wait for the confirm button,
//! and unconditional teardown.

use vstd::prelude::*;
use crate::file_handle::{browser_handles, handle_views, harvest, FileHandle};
use crate::scene::{DomAction, Place, Role, Scene};

verus! {

/// What the user does while a dialog is shown.
#[derive(Clone, Debug, PartialEq, Eq)]
pub enum Event {
    /// The input control's selection becomes these native file objects, in order.
    Select(Vec<u64>),
    /// The confirm button is activated.
    Click,
}

/// Where a dialog is in its life.
#[derive(Clone, Copy, Debug, PartialEq, Eq, Structural)]
pub enum Phase {
    /// Built and not shown: no wait is pending.
    Idle,
    /// Shown on the host surface; the wait for the confirm button is pending.
    Waiting,
    /// The wait has resolved; the overlay is still on the host surface.
    Resolved,
    /// Torn down.
    Closed,
}

/// The input control's selection after a run of events.
pub open spec fn selection_after(start: Seq<u64>, events: Seq<Event>) -> Seq<u64>
    decreases events.len(),
{
    if events.len() == 0 {
        start
    } else {
        match events[0] {
            Event::Select(files) => selection_after(files@, events.drop_first()),
            Event::Click => selection_after(start, events.drop_first()),
        }
    }
}

/// What a pending wait resolves with over a run of events: the selection at
/// the first activation of the confirm button, or nothing where there is none.
pub open spec fn resolution(start: Seq<u64>, events: Seq<Event>) -> Option<Seq<u64>>
    decreases events.len(),
{
    if events.len() == 0 {
        None
    } else {
        match events[0] {
            Event::Select(files) => resolution(files@, events.drop_first()),
            Event::Click => Some(start),
        }
    }
}

/// The actions that build a dialog.
pub open spec fn construction_steps() -> Seq<DomAction> {
    seq![
        DomAction::Create(Role::Overlay),
        DomAction::Create(Role::Card),
        DomAction::Append { child: Role::Card, parent: Role::Overlay },
        DomAction::Create(Role::Input),
        DomAction::Append { child: Role::Input, parent: Role::Card },
        DomAction::Create(Role::Button),
        DomAction::Append { child: Role::Button, parent: Role::Card },
        DomAction::Create(Role::Style),
        DomAction::Append { child: Role::Style, parent: Role::Overlay },
    ]
}

/// The actions that show a dialog: the click handler first, then the overlay
/// onto the host surface.
pub open spec fn opening_steps() -> Seq<DomAction> {
    seq![DomAction::Listen, DomAction::Attach(Role::Overlay)]
}

/// The action that hides a dialog once its wait has resolved.
pub open spec fn closing_steps() -> Seq<DomAction> {
    seq![DomAction::Remove(Role::Overlay)]
}

/// The actions that destroy a dialog: every owned element is removed.
pub open spec fn teardown_steps() -> Seq<DomAction> {
    seq![
        DomAction::Remove(Role::Button),
        DomAction::Remove(Role::Input),
        DomAction::Remove(Role::Card),
        DomAction::Remove(Role::Style),
        DomAction::Remove(Role::Overlay),
    ]
}

/// A file-selection dialog.
pub struct Dialog {
    scene: Scene,
    phase: Phase,
    selection: Vec<u64>,
    captured: Vec<u64>,
}

impl Dialog {
    /// Where the elements are attached.
    pub closed spec fn scene(&self) -> Scene {
        self.scene
    }

    /// Where the dialog is in its life.
    pub closed spec fn phase(&self) -> Phase {
        self.phase
    }

    /// The input control's current selection.
    pub closed spec fn selection(&self) -> Seq<u64> {
        self.selection@
    }

    /// The selection that the wait resolved with.
    pub closed spec fn captured(&self) -> Seq<u64> {
        self.captured@
    }

    /// The scene that belongs to each phase: a built dialog is off the host
    /// surface unless it is shown, a shown one has exactly one click handler,
    /// and a closed one has nothing attached.
    pub open spec fn wf(&self) -> bool {
        match self.phase() {
            Phase::Idle => self.scene() == Scene::assembled(Place::Detached, self.scene().handlers)
                && self.scene().handlers <= 1,
            Phase::Waiting => self.scene() == Scene::assembled(Place::Host, 1),
            Phase::Resolved => self.scene() == Scene::assembled(Place::Host, 1),
            Phase::Closed => self.scene().all_detached(),
        }
    }

    /// The actions that build a dialog, for whoever holds the document.
    pub fn construction_plan() -> (plan: Vec<DomAction>)
        ensures
            plan@ == construction_steps(),
    {
        let plan = vec![
            DomAction::Create(Role::Overlay),
            DomAction::Create(Role::Card),
            DomAction::Append { child: Role::Card, parent: Role::Overlay },
            DomAction::Create(Role::Input),
            DomAction::Append { child: Role::Input, parent: Role::Card },
            DomAction::Create(Role::Button),
            DomAction::Append { child: Role::Button, parent: Role::Card },
            DomAction::Create(Role::Style),
            DomAction::Append { child: Role::Style, parent: Role::Overlay },
        ];
        assert(plan@ =~= construction_steps());
        plan
    }

    /// The action that hides a dialog once its wait has resolved.
    pub fn closing_plan() -> (plan: Vec<DomAction>)
        ensures
            plan@ == closing_steps(),
    {
        let plan = vec![DomAction::Remove(Role::Overlay)];
        assert(plan@ =~= closing_steps());
        plan
    }

    /// Builds a dialog: the five elements, wired to each other and attached to
    /// no surface. No wait is pending and nothing is selected.
    pub fn new() -> (d: Dialog)
        ensures
            d.wf(),
            d.phase() == Phase::Idle,
            d.scene() == Scene::empty().run(construction_steps()),
            d.scene() == Scene::assembled(Place::Detached, 0),
            d.selection() == Seq::<u64>::empty(),
            d.captured() == Seq::<u64>::empty(),
            d.scene().on_host() == 0,
    {
        let plan = Dialog::construction_plan();
        let scene = Scene::blank().perform(&plan);
        proof {
            lemma_construction_builds();
        }
        Dialog { scene, phase: Phase::Idle, selection: Vec::new(), captured: Vec::new() }
    }

    /// Where the elements are attached.
    pub fn layout(&self) -> (s: Scene)
        ensures
            s == self.scene(),
    {
        self.scene
    }

    /// Whether the scene is the one that belongs to the phase.
    pub fn is_consistent(&self) -> (ok: bool)
        ensures
            ok == self.wf(),
    {
        let s = self.scene;
        let inner = matches!(s.card, Place::Inside(Role::Overlay)) && matches!(
            s.input,
            Place::Inside(Role::Card)
        ) && matches!(s.button, Place::Inside(Role::Card)) && matches!(
            s.style,
            Place::Inside(Role::Overlay)
        );
        match self.phase {
            Phase::Idle => inner && matches!(s.overlay, Place::Detached) && s.handlers <= 1,
            Phase::Waiting => inner && matches!(s.overlay, Place::Host) && s.handlers == 1,
            Phase::Resolved => inner && matches!(s.overlay, Place::Host) && s.handlers == 1,
            Phase::Closed => s.attached_count() == 0,
        }
    }

    /// Where the dialog is in its life.
    pub fn state(&self) -> (p: Phase)
        ensures
            p == self.phase(),
    {
        self.phase
    }

    /// Starts `open`: sets the click handler on the confirm button, then
    /// attaches the overlay to the host surface. Returns those actions; the
    /// wait is pending from here on.
    pub fn begin_open(&mut self) -> (plan: Vec<DomAction>)
        requires
            old(self).wf(),
            old(self).phase() == Phase::Idle,
        ensures
            final(self).wf(),
            final(self).phase() == Phase::Waiting,
            plan@ == opening_steps(),
            final(self).scene() == old(self).scene().run(plan@),
            final(self).scene() == Scene::assembled(Place::Host, 1),
            final(self).selection() == old(self).selection(),
            final(self).captured() == old(self).captured(),
    {
        let plan = vec![DomAction::Listen, DomAction::Attach(Role::Overlay)];
        assert(plan@ =~= opening_steps());
        self.scene = self.scene.perform(&plan);
        self.phase = Phase::Waiting;
        proof {
            lemma_opening_shows(old(self).scene());
        }
        plan
    }

    /// The user changes the input control's selection.
    pub fn select(&mut self, files: Vec<u64>)
        ensures
            final(self).selection() == files@,
            final(self).scene() == old(self).scene(),
            final(self).phase() == old(self).phase(),
            final(self).captured() == old(self).captured(),
    {
        self.selection = files;
    }

    /// The confirm button is activated. The first activation while the wait is
    /// pending resolves it with the current selection and returns `true`; any
    /// other activation changes nothing and returns `false`.
    pub fn click(&mut self) -> (resolved: bool)
        ensures
            resolved == (old(self).phase() == Phase::Waiting),
            resolved ==> final(self).phase() == Phase::Resolved,
            resolved ==> final(self).captured() == old(self).selection(),
            !resolved ==> final(self).phase() == old(self).phase(),
            !resolved ==> final(self).captured() == old(self).captured(),
            final(self).scene() == old(self).scene(),
            final(self).selection() == old(self).selection(),
    {
        match self.phase {
            Phase::Waiting => {
                self.captured = copy_ids(&self.selection);
                self.phase = Phase::Resolved;
                true
            },
            _ => false,
        }
    }

    /// Hands one event to the dialog.
    pub fn deliver(&mut self, event: &Event)
        ensures
            final(self).scene() == old(self).scene(),
            match *event {
                Event::Select(files) => {
                    &&& final(self).selection() == files@
                    &&& final(self).phase() == old(self).phase()
                    &&& final(self).captured() == old(self).captured()
                },
                Event::Click => if old(self).phase() == Phase::Waiting {
                    &&& final(self).selection() == old(self).selection()
                    &&& final(self).phase() == Phase::Resolved
                    &&& final(self).captured() == old(self).selection()
                } else {
                    &&& final(self).selection() == old(self).selection()
                    &&& final(self).phase() == old(self).phase()
                    &&& final(self).captured() == old(self).captured()
                },
            },
    {
        match event {
            Event::Select(files) => {
                self.select(copy_ids(files));
            },
            Event::Click => {
                self.click();
            },
        }
    }

    /// Ends `open`. Once the wait has resolved, wraps the captured selection as
    /// handles, in order, and removes the overlay from the host surface; the
    /// dialog is idle again. While the wait is pending, or where none was
    /// started, nothing changes and nothing is returned.
    pub fn finish_open(&mut self) -> (r: Option<Vec<FileHandle>>)
        ensures
            old(self).wf() ==> final(self).wf(),
            final(self).selection() == old(self).selection(),
            final(self).captured() == old(self).captured(),
            if old(self).phase() == Phase::Resolved {
                &&& r matches Some(handles) && handle_views(handles@) == browser_handles(
                    old(self).captured(),
                )
                &&& final(self).phase() == Phase::Idle
                &&& final(self).scene() == old(self).scene().run(closing_steps())
            } else {
                &&& r.is_none()
                &&& final(self).phase() == old(self).phase()
                &&& final(self).scene() == old(self).scene()
            },
    {
        match self.phase {
            Phase::Resolved => {
                let handles = harvest(&self.captured);
                self.scene = self.scene.apply(DomAction::Remove(Role::Overlay));
                self.phase = Phase::Idle;
                proof {
                    lemma_closing_hides(old(self).scene());
                }
                Some(handles)
            },
            _ => None,
        }
    }

    /// Shows the dialog, waits through `events` for the confirm button, and
    /// returns what was selected at its first activation, as handles in order:
    /// an empty selection gives an empty sequence. The overlay is then off the
    /// host surface again. Where `events` holds no activation the wait is still
    /// pending: nothing is returned and the overlay stays where it is.
    pub fn open(&mut self, events: &Vec<Event>) -> (r: Option<Vec<FileHandle>>)
        requires
            old(self).wf(),
            old(self).phase() == Phase::Idle,
        ensures
            final(self).wf(),
            final(self).selection() == selection_after(old(self).selection(), events@),
            match resolution(old(self).selection(), events@) {
                Some(files) => {
                    &&& r matches Some(handles) && handle_views(handles@) == browser_handles(files)
                    &&& final(self).phase() == Phase::Idle
                    &&& final(self).captured() == files
                    &&& final(self).scene() == old(self).scene().run(
                        opening_steps() + closing_steps(),
                    )
                    &&& final(self).scene() == Scene::assembled(Place::Detached, 1)
                },
                None => {
                    &&& r.is_none()
                    &&& final(self).phase() == Phase::Waiting
                    &&& final(self).captured() == old(self).captured()
                    &&& final(self).scene() == old(self).scene().run(opening_steps())
                    &&& final(self).scene() == Scene::assembled(Place::Host, 1)
                },
            },
    {
        self.begin_open();
        proof {
            lemma_run_concat(old(self).scene(), opening_steps(), closing_steps());
        }
        let n: usize = events.len();
        let mut i: usize = 0;
        assert(events@.skip(0) =~= events@);
        while i < n
            invariant
                n == events@.len(),
                i <= n,
                self.wf(),
                self.scene() == Scene::assembled(Place::Host, 1),
                self.scene() == old(self).scene().run(opening_steps()),
                self.phase() == Phase::Waiting || self.phase() == Phase::Resolved,
                self.phase() == Phase::Waiting ==> self.captured() == old(self).captured(),
                selection_after(self.selection(), events@.skip(i as int)) == selection_after(
                    old(self).selection(),
                    events@,
                ),
                resolution(old(self).selection(), events@) == if self.phase() == Phase::Resolved {
                    Some(self.captured())
                } else {
                    resolution(self.selection(), events@.skip(i as int))
                },
            decreases n - i,
        {
            assert(events@.skip(i as int).drop_first() =~= events@.skip(i + 1));
            assert(events@.skip(i as int)[0] == events@[i as int]);
            self.deliver(&events[i]);
            i += 1;
        }
        assert(events@.skip(n as int).len() == 0);
        proof {
            lemma_closing_hides(self.scene());
        }
        self.finish_open()
    }

    /// The actions that destroy the dialog, whatever state it is in: each of
    /// the five elements is removed from whatever it is attached to. After
    /// them nothing the dialog owns is attached anywhere.
    pub fn teardown(&mut self) -> (plan: Vec<DomAction>)
        ensures
            final(self).wf(),
            final(self).phase() == Phase::Closed,
            plan@ == teardown_steps(),
            final(self).scene() == old(self).scene().run(plan@),
            final(self).scene().all_detached(),
            final(self).scene().attached() == 0,
            final(self).scene().on_host() == 0,
            final(self).selection() == old(self).selection(),
            final(self).captured() == old(self).captured(),
    {
        let plan = vec![
            DomAction::Remove(Role::Button),
            DomAction::Remove(Role::Input),
            DomAction::Remove(Role::Card),
            DomAction::Remove(Role::Style),
            DomAction::Remove(Role::Overlay),
        ];
        assert(plan@ =~= teardown_steps());
        self.scene = self.scene.perform(&plan);
        self.phase = Phase::Closed;
        proof {
            lemma_teardown_detaches_all(old(self).scene());
        }
        plan
    }
}

/// A fresh vector with the length and content of `src`.
fn copy_ids(src: &Vec<u64>) -> (out: Vec<u64>)
    ensures
        out@ == src@,
{
    let n: usize = src.len();
    let mut out: Vec<u64> = Vec::new();
    let mut i: usize = 0;
    while i < n
        invariant
            n == src@.len(),
            i <= n,
            out@ == src@.take(i as int),
        decreases n - i,
    {
        out.push(src[i]);
        i += 1;
        assert(out@ =~= src@.take(i as int));
    }
    assert(src@.take(n as int) =~= src@);
    out
}

/// Running a plan that ends in `last` is running what comes before it, then `last`.
proof fn lemma_run_push(scene: Scene, plan: Seq<DomAction>, last: DomAction)
    ensures
        scene.run(plan.push(last)) == scene.run(plan).step(last),
{
    assert(plan.push(last).drop_last() =~= plan);
}

/// Running two plans one after the other is running them joined.
pub proof fn lemma_run_concat(scene: Scene, first: Seq<DomAction>, second: Seq<DomAction>)
    ensures
        scene.run(first + second) == scene.run(first).run(second),
    decreases second.len(),
{
    if second.len() == 0 {
        assert(first + second =~= first);
    } else {
        assert((first + second).drop_last() =~= first + second.drop_last());
        assert((first + second).last() == second.last());
        lemma_run_concat(scene, first, second.drop_last());
    }
}

/// The construction plan, run on the empty scene, builds the dialog: the card
/// and the style element under the overlay, the input and the button under the
/// card, the overlay attached to nothing, and no click handler.
pub proof fn lemma_construction_builds()
    ensures
        Scene::empty().run(construction_steps()) == Scene::assembled(Place::Detached, 0),
{
    let e = Scene::empty();
    let s = construction_steps();
    let upto0 = Seq::<DomAction>::empty();
    let upto1 = upto0.push(s[0]);
    let upto2 = upto1.push(s[1]);
    let upto3 = upto2.push(s[2]);
    let upto4 = upto3.push(s[3]);
    let upto5 = upto4.push(s[4]);
    let upto6 = upto5.push(s[5]);
    let upto7 = upto6.push(s[6]);
    let upto8 = upto7.push(s[7]);
    let upto9 = upto8.push(s[8]);
    assert(upto9 =~= s);
    assert(e.run(upto0) == e);
    lemma_run_push(e, upto0, s[0]);
    lemma_run_push(e, upto1, s[1]);
    lemma_run_push(e, upto2, s[2]);
    lemma_run_push(e, upto3, s[3]);
    lemma_run_push(e, upto4, s[4]);
    lemma_run_push(e, upto5, s[5]);
    lemma_run_push(e, upto6, s[6]);
    lemma_run_push(e, upto7, s[7]);
    lemma_run_push(e, upto8, s[8]);
}

/// The opening plan sets the one click handler and puts the overlay on the
/// host surface; every other element stays where it is.
pub proof fn lemma_opening_shows(scene: Scene)
    ensures
        scene.run(opening_steps()) == (Scene { overlay: Place::Host, handlers: 1, ..scene }),
{
    let s = opening_steps();
    let upto0 = Seq::<DomAction>::empty();
    let upto1 = upto0.push(s[0]);
    let upto2 = upto1.push(s[1]);
    assert(upto2 =~= s);
    assert(scene.run(upto0) == scene);
    lemma_run_push(scene, upto0, s[0]);
    lemma_run_push(scene, upto1, s[1]);
}

/// The closing plan takes the overlay off whatever it is attached to; every
/// other element stays where it is.
pub proof fn lemma_closing_hides(scene: Scene)
    ensures
        scene.run(closing_steps()) == scene.step(DomAction::Remove(Role::Overlay)),
        scene.run(closing_steps()) == (Scene { overlay: Place::Detached, ..scene }),
{
    let s = closing_steps();
    let upto0 = Seq::<DomAction>::empty();
    assert(upto0.push(s[0]) =~= s);
    assert(scene.run(upto0) == scene);
    lemma_run_push(scene, upto0, s[0]);
}

/// Teardown is total: from every scene, whether the dialog was never shown, is
/// shown, or was shown and hidden again, the teardown plan leaves none of the
/// five elements attached to anything.
pub proof fn lemma_teardown_detaches_all(scene: Scene)
    ensures
        scene.run(teardown_steps()).all_detached(),
        scene.run(teardown_steps()).attached() == 0,
        scene.run(teardown_steps()).on_host() == 0,
        scene.run(teardown_steps()).handlers == scene.handlers,
{
    let s = teardown_steps();
    let upto0 = Seq::<DomAction>::empty();
    let upto1 = upto0.push(s[0]);
    let upto2 = upto1.push(s[1]);
    let upto3 = upto2.push(s[2]);
    let upto4 = upto3.push(s[3]);
    let upto5 = upto4.push(s[4]);
    assert(upto5 =~= s);
    assert(scene.run(upto0) == scene);
    lemma_run_push(scene, upto0, s[0]);
    lemma_run_push(scene, upto1, s[1]);
    lemma_run_push(scene, upto2, s[2]);
    lemma_run_push(scene, upto3, s[3]);
    lemma_run_push(scene, upto4, s[4]);
    let end = scene.run(s);
    assert forall|role: Role| end.place_of(role) == Place::Detached by {}
}

/// The teardown plan holds nothing but removals, and removes each of the five
/// elements exactly once.
pub proof fn lemma_teardown_removes_each_once(role: Role)
    ensures
        forall|i: int| 0 <= i < teardown_steps().len() ==> teardown_steps()[i] is Remove,
        exists|i: int|
            0 <= i < teardown_steps().len() && teardown_steps()[i] == DomAction::Remove(role)
                && forall|j: int|
                0 <= j < teardown_steps().len() && teardown_steps()[j] == DomAction::Remove(role)
                    ==> j == i,
{
    let s = teardown_steps();
    let i: int = match role {
        Role::Button => 0,
        Role::Input => 1,
        Role::Card => 2,
        Role::Style => 3,
        Role::Overlay => 4,
    };
    assert(s[i] == DomAction::Remove(role));
    assert forall|j: int| 0 <= j < s.len() && s[j] == DomAction::Remove(role) implies j == i by {
        assert(s[0] == DomAction::Remove(Role::Button));
        assert(s[1] == DomAction::Remove(Role::Input));
        assert(s[2] == DomAction::Remove(Role::Card));
        assert(s[3] == DomAction::Remove(Role::Style));
        assert(s[4] == DomAction::Remove(Role::Overlay));
    }
}

/// Removing an element that is attached to nothing changes nothing, so a
/// second teardown is harmless.
pub proof fn lemma_teardown_idempotent(scene: Scene)
    ensures
        scene.run(teardown_steps()).run(teardown_steps()) == scene.run(teardown_steps()),
{
    let once = scene.run(teardown_steps());
    lemma_teardown_detaches_all(scene);
    lemma_teardown_detaches_all(once);
    let twice = once.run(teardown_steps());
    assert(once.place_of(Role::Overlay) == Place::Detached);
    assert(once.place_of(Role::Card) == Place::Detached);
    assert(once.place_of(Role::Input) == Place::Detached);
    assert(once.place_of(Role::Button) == Place::Detached);
    assert(once.place_of(Role::Style) == Place::Detached);
    assert(twice.place_of(Role::Overlay) == Place::Detached);
    assert(twice.place_of(Role::Card) == Place::Detached);
    assert(twice.place_of(Role::Input) == Place::Detached);
    assert(twice.place_of(Role::Button) == Place::Detached);
    assert(twice.place_of(Role::Style) == Place::Detached);
}

/// A wait resolves once, at the first activation of the confirm button: with
/// the selection that the events before it left, whatever events follow it.
pub proof fn lemma_single_resolution(start: Seq<u64>, before: Seq<Event>, after: Seq<Event>)
    requires
        forall|i: int| 0 <= i < before.len() ==> before[i] is Select,
    ensures
        resolution(start, before + seq![Event::Click] + after) == Some(
            selection_after(start, before),
        ),
        resolution(start, before + seq![Event::Click] + after) == resolution(
            start,
            before + seq![Event::Click],
        ),
    decreases before.len(),
{
    let short = before + seq![Event::Click];
    let long = short + after;
    if before.len() == 0 {
        assert(long[0] == Event::Click);
        assert(short[0] == Event::Click);
    } else {
        let rest = before.drop_first();
        assert(long[0] == before[0]);
        assert(short[0] == before[0]);
        assert(long.drop_first() =~= rest + seq![Event::Click] + after);
        assert(short.drop_first() =~= rest + seq![Event::Click]);
        match before[0] {
            Event::Select(files) => {
                lemma_single_resolution(files@, rest, after);
            },
            Event::Click => {},
        }
    }
}

/// Once a run of events has resolved the wait, no further event changes what
/// it resolved with.
pub proof fn lemma_resolution_is_final(start: Seq<u64>, events: Seq<Event>, more: Seq<Event>)
    requires
        resolution(start, events).is_some(),
    ensures
        resolution(start, events + more) == resolution(start, events),
    decreases events.len(),
{
    let all = events + more;
    assert(events.len() > 0);
    assert(all[0] == events[0]);
    assert(all.drop_first() =~= events.drop_first() + more);
    match events[0] {
        Event::Select(files) => {
            lemma_resolution_is_final(files@, events.drop_first(), more);
        },
        Event::Click => {},
    }
}

} // verus!
