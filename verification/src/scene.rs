//! The elements a dialog owns, where each is attached, and the actions that
//! move them.

use vstd::prelude::*;

verus! {

/// The five elements a dialog owns.
#[derive(Clone, Copy, Debug, PartialEq, Eq, Structural)]
pub enum Role {
    /// The overlay root.
    Overlay,
    /// The card container.
    Card,
    /// The file-input control.
    Input,
    /// The confirm button.
    Button,
    /// The style element.
    Style,
}

/// Where an element is attached.
#[derive(Clone, Copy, Debug, PartialEq, Eq, Structural)]
pub enum Place {
    /// Attached to nothing.
    Detached,
    /// A child of the host surface.
    Host,
    /// A child of another element of the dialog.
    Inside(Role),
}

/// One action on the document, decided by the dialog and performed by whoever
/// holds the document.
#[derive(Clone, Copy, Debug, PartialEq, Eq, Structural)]
pub enum DomAction {
    /// Create the element of a role, detached, with its tag, identifier and content.
    Create(Role),
    /// Append `child` under `parent`.
    Append { child: Role, parent: Role },
    /// Append an element under the host surface.
    Attach(Role),
    /// Remove an element from whatever it is attached to.
    Remove(Role),
    /// Set the click handler of the confirm button, in place of any earlier one.
    Listen,
}

impl Role {
    /// The tag name of the element of this role.
    pub open spec fn tag_name(self) -> Seq<char> {
        match self {
            Role::Overlay => "div"@,
            Role::Card => "div"@,
            Role::Input => "input"@,
            Role::Button => "button"@,
            Role::Style => "style"@,
        }
    }

    /// The identifier given to the element of this role; the style element has none.
    pub open spec fn identifier(self) -> Option<Seq<char>> {
        match self {
            Role::Overlay => Some("rfd-overlay"@),
            Role::Card => Some("rfd-card"@),
            Role::Input => Some("rfd-input"@),
            Role::Button => Some("rfd-button"@),
            Role::Style => None,
        }
    }

    /// The text shown on the element of this role: only the confirm button has one.
    pub open spec fn label_text(self) -> Option<Seq<char>> {
        match self {
            Role::Button => Some("Ok"@),
            _ => None,
        }
    }

    /// The kind of input control: only the file input has one.
    pub open spec fn input_kind_name(self) -> Option<Seq<char>> {
        match self {
            Role::Input => Some("file"@),
            _ => None,
        }
    }

    /// The tag name to create the element with.
    pub fn tag(self) -> (t: &'static str)
        ensures
            t@ == self.tag_name(),
    {
        match self {
            Role::Overlay => "div",
            Role::Card => "div",
            Role::Input => "input",
            Role::Button => "button",
            Role::Style => "style",
        }
    }

    /// The text to show on the element, if it shows one.
    pub fn label(self) -> (text: Option<&'static str>)
        ensures
            match self.label_text() {
                Some(s) => text matches Some(t) && t@ == s,
                None => text.is_none(),
            },
    {
        match self {
            Role::Button => Some("Ok"),
            _ => None,
        }
    }

    /// The kind to give the element, if it is an input control.
    pub fn input_kind(self) -> (kind: Option<&'static str>)
        ensures
            match self.input_kind_name() {
                Some(s) => kind matches Some(t) && t@ == s,
                None => kind.is_none(),
            },
    {
        match self {
            Role::Input => Some("file"),
            _ => None,
        }
    }

    /// The identifier to set on the element, if it gets one.
    pub fn element_id(self) -> (id: Option<&'static str>)
        ensures
            match self.identifier() {
                Some(s) => id matches Some(t) && t@ == s,
                None => id.is_none(),
            },
    {
        match self {
            Role::Overlay => Some("rfd-overlay"),
            Role::Card => Some("rfd-card"),
            Role::Input => Some("rfd-input"),
            Role::Button => Some("rfd-button"),
            Role::Style => None,
        }
    }
}

/// Where each of the five elements is attached, and how many click handlers
/// the confirm button has.
#[derive(Clone, Copy, Debug, PartialEq, Eq, Structural)]
pub struct Scene {
    pub overlay: Place,
    pub card: Place,
    pub input: Place,
    pub button: Place,
    pub style: Place,
    pub handlers: u8,
}

impl Scene {
    /// Where the element of a role is attached.
    pub open spec fn place_of(self, role: Role) -> Place {
        match role {
            Role::Overlay => self.overlay,
            Role::Card => self.card,
            Role::Input => self.input,
            Role::Button => self.button,
            Role::Style => self.style,
        }
    }

    /// The scene with one element moved.
    pub open spec fn put(self, role: Role, place: Place) -> Scene {
        match role {
            Role::Overlay => Scene { overlay: place, ..self },
            Role::Card => Scene { card: place, ..self },
            Role::Input => Scene { input: place, ..self },
            Role::Button => Scene { button: place, ..self },
            Role::Style => Scene { style: place, ..self },
        }
    }

    /// The scene after one action.
    pub open spec fn step(self, action: DomAction) -> Scene {
        match action {
            DomAction::Create(role) => self.put(role, Place::Detached),
            DomAction::Append { child, parent } => self.put(child, Place::Inside(parent)),
            DomAction::Attach(role) => self.put(role, Place::Host),
            DomAction::Remove(role) => self.put(role, Place::Detached),
            DomAction::Listen => Scene { handlers: 1, ..self },
        }
    }

    /// The scene after a plan: its actions one after the other, first to last.
    pub open spec fn run(self, plan: Seq<DomAction>) -> Scene
        decreases plan.len(),
    {
        if plan.len() == 0 {
            self
        } else {
            self.run(plan.drop_last()).step(plan.last())
        }
    }

    /// Every element is attached to nothing.
    pub open spec fn all_detached(self) -> bool {
        forall|role: Role| self.place_of(role) == Place::Detached
    }

    /// How many of the five elements are attached to something.
    pub open spec fn attached(self) -> nat {
        let one = |p: Place| if p == Place::Detached { 0nat } else { 1nat };
        one(self.overlay) + one(self.card) + one(self.input) + one(self.button) + one(self.style)
    }

    /// How many of the five elements are children of the host surface.
    pub open spec fn on_host(self) -> nat {
        let one = |p: Place| if p == Place::Host { 1nat } else { 0nat };
        one(self.overlay) + one(self.card) + one(self.input) + one(self.button) + one(self.style)
    }

    /// The scene before anything is created: nothing attached, no handler.
    pub open spec fn empty() -> Scene {
        Scene {
            overlay: Place::Detached,
            card: Place::Detached,
            input: Place::Detached,
            button: Place::Detached,
            style: Place::Detached,
            handlers: 0,
        }
    }

    /// The scene of a built dialog: the card and the style element under the
    /// overlay, the input and the button under the card.
    pub open spec fn assembled(overlay: Place, handlers: u8) -> Scene {
        Scene {
            overlay,
            card: Place::Inside(Role::Overlay),
            input: Place::Inside(Role::Card),
            button: Place::Inside(Role::Card),
            style: Place::Inside(Role::Overlay),
            handlers,
        }
    }

    /// The scene before anything is created.
    pub fn blank() -> (s: Scene)
        ensures
            s == Scene::empty(),
    {
        Scene {
            overlay: Place::Detached,
            card: Place::Detached,
            input: Place::Detached,
            button: Place::Detached,
            style: Place::Detached,
            handlers: 0,
        }
    }

    /// Where the element of a role is attached.
    pub fn place(&self, role: Role) -> (p: Place)
        ensures
            p == self.place_of(role),
    {
        match role {
            Role::Overlay => self.overlay,
            Role::Card => self.card,
            Role::Input => self.input,
            Role::Button => self.button,
            Role::Style => self.style,
        }
    }

    fn moved(self, role: Role, place: Place) -> (s: Scene)
        ensures
            s == self.put(role, place),
    {
        let mut s = self;
        match role {
            Role::Overlay => { s.overlay = place; },
            Role::Card => { s.card = place; },
            Role::Input => { s.input = place; },
            Role::Button => { s.button = place; },
            Role::Style => { s.style = place; },
        }
        s
    }

    /// Performs one action on the scene.
    pub fn apply(self, action: DomAction) -> (s: Scene)
        ensures
            s == self.step(action),
    {
        match action {
            DomAction::Create(role) => self.moved(role, Place::Detached),
            DomAction::Append { child, parent } => self.moved(child, Place::Inside(parent)),
            DomAction::Attach(role) => self.moved(role, Place::Host),
            DomAction::Remove(role) => self.moved(role, Place::Detached),
            DomAction::Listen => {
                let mut s = self;
                s.handlers = 1;
                s
            },
        }
    }

    /// Performs a plan on the scene, first action to last.
    pub fn perform(self, plan: &Vec<DomAction>) -> (s: Scene)
        ensures
            s == self.run(plan@),
    {
        let n: usize = plan.len();
        let mut s = self;
        let mut i: usize = 0;
        while i < n
            invariant
                n == plan@.len(),
                i <= n,
                s == self.run(plan@.take(i as int)),
            decreases n - i,
        {
            assert(plan@.take(i + 1).drop_last() =~= plan@.take(i as int));
            s = s.apply(plan[i]);
            i += 1;
        }
        assert(plan@.take(n as int) =~= plan@);
        s
    }

    /// How many of the five elements are attached to something.
    pub fn attached_count(&self) -> (n: usize)
        ensures
            n == self.attached(),
            n == 0 <==> self.all_detached(),
    {
        let mut n: usize = 0;
        if !matches!(self.overlay, Place::Detached) {
            n += 1;
        }
        if !matches!(self.card, Place::Detached) {
            n += 1;
        }
        if !matches!(self.input, Place::Detached) {
            n += 1;
        }
        if !matches!(self.button, Place::Detached) {
            n += 1;
        }
        if !matches!(self.style, Place::Detached) {
            n += 1;
        }
        proof {
            if n == 0 {
                assert forall|role: Role| self.place_of(role) == Place::Detached by {}
            } else {
                assert(self.place_of(Role::Overlay) == self.overlay);
                assert(self.place_of(Role::Card) == self.card);
                assert(self.place_of(Role::Input) == self.input);
                assert(self.place_of(Role::Button) == self.button);
                assert(self.place_of(Role::Style) == self.style);
            }
        }
        n
    }

    /// How many of the five elements are children of the host surface.
    pub fn host_children(&self) -> (n: usize)
        ensures
            n == self.on_host(),
    {
        let mut n: usize = 0;
        if matches!(self.overlay, Place::Host) {
            n += 1;
        }
        if matches!(self.card, Place::Host) {
            n += 1;
        }
        if matches!(self.input, Place::Host) {
            n += 1;
        }
        if matches!(self.button, Place::Host) {
            n += 1;
        }
        if matches!(self.style, Place::Host) {
            n += 1;
        }
        n
    }
}

} // verus!
