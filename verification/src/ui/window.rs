//! The navigation state: which tab and menu are active, which course is
//! selected, and the courses and assignments held for the session.

use crate::error::FetchError;
use crate::ui::course::{
    course_views, distinct_ids, position_of, Assignment, Course, CourseView,
};
use vstd::prelude::*;

verus! {

/// The content panes. Exactly one is active at any time.
#[derive(Clone, Copy, Debug, PartialEq, Eq, Structural)]
pub enum Menus {
    Course,
    Assignments,
    Description,
}

impl Menus {
    /// The position of the menu among the three.
    pub open spec fn position(self) -> usize {
        match self {
            Menus::Course => 0,
            Menus::Assignments => 1,
            Menus::Description => 2,
        }
    }
}

impl vstd::std_specs::convert::FromSpecImpl<Menus> for usize {
    open spec fn obeys_from_spec() -> bool {
        true
    }

    open spec fn from_spec(menu: Menus) -> usize {
        menu.position()
    }
}

impl From<Menus> for usize {
    /// The position of the menu among the three.
    fn from(menu: Menus) -> (n: usize) {
        match menu {
            Menus::Course => 0,
            Menus::Assignments => 1,
            Menus::Description => 2,
        }
    }
}

/// What the session holds of one course's assignments, in contracts.
pub enum SlotView {
    Absent,
    Loading,
    Loaded(Seq<Seq<char>>),
    Failed(FetchError),
}

/// What the session holds of one course's assignments.
#[derive(Debug, PartialEq, Eq)]
pub enum Slot {
    /// Never asked for.
    Absent,
    /// Asked for; the answer has not come yet.
    Loading,
    /// The assignments the service named, in its order.
    Loaded(Vec<Assignment>),
    /// The service gave no usable answer.
    Failed(FetchError),
}

/// The names of the assignments of a vector, in order.
pub open spec fn assignment_names(assignments: Seq<Assignment>) -> Seq<Seq<char>> {
    assignments.map_values(|a: Assignment| a@)
}

impl View for Slot {
    type V = SlotView;

    open spec fn view(&self) -> SlotView {
        match self {
            Slot::Absent => SlotView::Absent,
            Slot::Loading => SlotView::Loading,
            Slot::Loaded(list) => SlotView::Loaded(assignment_names(list@)),
            Slot::Failed(e) => SlotView::Failed(*e),
        }
    }
}

impl SlotView {
    /// The slot that holds the outcome of a fetch.
    pub open spec fn of(outcome: Result<Seq<Seq<char>>, FetchError>) -> SlotView {
        match outcome {
            Ok(names) => SlotView::Loaded(names),
            Err(e) => SlotView::Failed(e),
        }
    }
}

/// A key press, as far as the dashboard tells keys apart.
#[derive(Clone, Copy, Debug, PartialEq, Eq, Structural)]
pub enum Key {
    Char(char),
    Left,
    Right,
    Up,
    Down,
    /// Any other key.
    Other,
}

impl Key {
    /// The keys the dashboard reacts to: `q`, `a`, `c`, `d` and the arrows.
    pub open spec fn is_mapped(self) -> bool {
        match self {
            Key::Char(c) => c == 'q' || c == 'a' || c == 'c' || c == 'd',
            Key::Other => false,
            _ => true,
        }
    }
}

/// What the loop has to do after a key, in contracts.
pub enum ActionView {
    Quit,
    Continue,
    Fetch(Seq<char>),
}

/// What the loop has to do after a key.
#[derive(Debug, PartialEq, Eq)]
pub enum Action {
    /// Leave the loop.
    Quit,
    /// Draw again and wait for the next key.
    Continue,
    /// Ask the service for the assignments of the course with this id, then
    /// draw again and wait for the next key.
    Fetch(String),
}

impl View for Action {
    type V = ActionView;

    open spec fn view(&self) -> ActionView {
        match self {
            Action::Quit => ActionView::Quit,
            Action::Continue => ActionView::Continue,
            Action::Fetch(id) => ActionView::Fetch(id@),
        }
    }
}

/// The names of a fetched list, or the failure, as contracts see them.
pub open spec fn outcome_view(outcome: Result<Vec<String>, FetchError>) -> Result<
    Seq<Seq<char>>,
    FetchError,
> {
    match outcome {
        Ok(names) => Ok(names@.map_values(|n: String| n@)),
        Err(e) => Err(e),
    }
}

/// The navigation state as contracts see it.
pub struct WindowView {
    /// The tab titles, in the order of the tab bar.
    pub titles: Seq<Seq<char>>,
    /// The active tab.
    pub index: nat,
    /// The selected course, if any.
    pub menu_index: Option<nat>,
    /// The active content pane.
    pub active_menu: Menus,
    /// The courses fetched at start.
    pub courses: Seq<CourseView>,
    /// For each course, at its position, what is held of its assignments.
    pub assignments: Seq<SlotView>,
}

impl WindowView {
    /// The invariant of the navigation state: there is a tab and the active
    /// one exists, the selected course exists, no two courses share an id,
    /// and each course has its slot.
    pub open spec fn wf(self) -> bool {
        &&& self.titles.len() >= 1
        &&& self.index < self.titles.len()
        &&& (self.menu_index matches Some(i) ==> i < self.courses.len())
        &&& distinct_ids(self.courses)
        &&& self.assignments.len() == self.courses.len()
    }

    /// The state at start: the first tab, the course pane, nothing selected,
    /// nothing fetched.
    pub open spec fn initial(titles: Seq<Seq<char>>, courses: Seq<CourseView>) -> WindowView {
        WindowView {
            titles,
            index: 0,
            menu_index: None,
            active_menu: Menus::Course,
            courses,
            assignments: Seq::new(courses.len(), |i: int| SlotView::Absent),
        }
    }

    /// One tab forward, from the last to the first.
    pub open spec fn next(self) -> WindowView {
        WindowView { index: ((self.index + 1) % self.titles.len()) as nat, ..self }
    }

    /// One tab back, from the first to the last.
    pub open spec fn previous(self) -> WindowView {
        WindowView {
            index: if self.index > 0 {
                (self.index - 1) as nat
            } else {
                (self.titles.len() - 1) as nat
            },
            ..self
        }
    }

    /// The selection one course down, from the last to the first. With
    /// nothing selected the first course is taken; with no course nothing
    /// changes.
    pub open spec fn menu_down(self) -> WindowView {
        if self.courses.len() == 0 {
            self
        } else {
            WindowView {
                menu_index: Some(
                    match self.menu_index {
                        Some(i) => ((i + 1) % self.courses.len()) as nat,
                        None => 0,
                    },
                ),
                ..self
            }
        }
    }

    /// The selection one course up, from the first to the last. With nothing
    /// selected the last course is taken; with no course nothing changes.
    pub open spec fn menu_up(self) -> WindowView {
        if self.courses.len() == 0 {
            self
        } else {
            WindowView {
                menu_index: Some(
                    match self.menu_index {
                        Some(i) if i > 0 => (i - 1) as nat,
                        _ => (self.courses.len() - 1) as nat,
                    },
                ),
                ..self
            }
        }
    }

    pub open spec fn set_active_menu(self, menu: Menus) -> WindowView {
        WindowView { active_menu: menu, ..self }
    }

    /// The course whose assignments are on view and were never asked for.
    pub open spec fn wanted(self) -> Option<nat> {
        match self.menu_index {
            Some(i) if self.active_menu == Menus::Assignments && self.assignments[i as int]
                == SlotView::Absent => Some(i),
            _ => None,
        }
    }

    /// Asks for the assignments that are on view and were never asked for:
    /// their slot becomes `Loading` and the action names the course. Where
    /// nothing is wanted, nothing changes.
    pub open spec fn request(self) -> (WindowView, ActionView) {
        match self.wanted() {
            Some(i) => (
                WindowView {
                    assignments: self.assignments.update(i as int, SlotView::Loading),
                    ..self
                },
                ActionView::Fetch(self.courses[i as int].id),
            ),
            None => (self, ActionView::Continue),
        }
    }

    /// The state after a key other than `q`.
    pub open spec fn pressed(self, key: Key) -> WindowView {
        match key {
            Key::Right => self.next(),
            Key::Left => self.previous(),
            Key::Down => self.menu_down(),
            Key::Up => self.menu_up(),
            Key::Char(c) => if c == 'a' {
                self.set_active_menu(Menus::Assignments)
            } else if c == 'c' {
                self.set_active_menu(Menus::Course)
            } else if c == 'd' {
                self.set_active_menu(Menus::Description)
            } else {
                self
            },
            Key::Other => self,
        }
    }

    /// The state after a key, and what the loop has to do: `q` ends the
    /// loop, the other mapped keys move and then ask for what is wanted, and
    /// every other key changes nothing.
    pub open spec fn dispatch(self, key: Key) -> (WindowView, ActionView) {
        if key == Key::Char('q') {
            (self, ActionView::Quit)
        } else if key.is_mapped() {
            self.pressed(key).request()
        } else {
            (self, ActionView::Continue)
        }
    }

    /// The state after the service answered for the course with id `id`:
    /// the answer fills that course's slot if it is `Loading`. An answer for
    /// an unknown course, or one nobody waits for, is dropped.
    pub open spec fn deliver(
        self,
        id: Seq<char>,
        outcome: Result<Seq<Seq<char>>, FetchError>,
    ) -> WindowView {
        WindowView {
            assignments: Seq::new(
                self.assignments.len(),
                |i: int|
                    if self.courses[i].id == id && self.assignments[i] == SlotView::Loading {
                        SlotView::of(outcome)
                    } else {
                        self.assignments[i]
                    },
            ),
            ..self
        }
    }
}

/// The navigation state of the dashboard. Every value of it is well
/// formed, in the sense of [`WindowView::wf`].
pub struct Window<'a> {
    /// The tab titles, in the order of the tab bar.
    titles: Vec<&'a str>,
    /// The active tab.
    index: usize,
    /// The selected course, if any.
    menu_index: Option<usize>,
    /// The active content pane.
    active_menu: Menus,
    /// The courses fetched at start.
    courses: Vec<Course>,
    /// For each course, at its position, what is held of its assignments.
    assignments: Vec<Slot>,
}

/// The views of the slots of a vector, in order.
pub open spec fn slot_views(slots: Seq<Slot>) -> Seq<SlotView> {
    slots.map_values(|s: Slot| s@)
}

impl<'a> View for Window<'a> {
    type V = WindowView;

    closed spec fn view(&self) -> WindowView {
        WindowView {
            titles: self.titles@.map_values(|t: &str| t@),
            index: self.index as nat,
            menu_index: match self.menu_index {
                Some(i) => Some(i as nat),
                None => None,
            },
            active_menu: self.active_menu,
            courses: course_views(self.courses@),
            assignments: slot_views(self.assignments@),
        }
    }
}

impl<'a> Window<'a> {
    #[verifier::type_invariant]
    spec fn inv(&self) -> bool {
        self@.wf()
    }

    /// The dashboard at start, over the courses fetched for the session:
    /// the tabs `Courses` and `Assignments`, the first one active, the
    /// course pane shown, no course selected, no assignments fetched.
    pub fn new(courses: Vec<Course>) -> (w: Window<'a>)
        requires
            distinct_ids(course_views(courses@)),
        ensures
            w@ == WindowView::initial(seq!["Courses"@, "Assignments"@], course_views(courses@)),
            w@.wf(),
    {
        let mut assignments: Vec<Slot> = Vec::new();
        let mut i: usize = 0;
        while i < courses.len()
            invariant
                i <= courses.len(),
                assignments.len() == i,
                forall|k: int| 0 <= k < i ==> assignments[k] == Slot::Absent,
            decreases courses.len() - i,
        {
            assignments.push(Slot::Absent);
            i += 1;
        }
        let titles: Vec<&'a str> = vec!["Courses", "Assignments"];
        let w = Window {
            titles,
            index: 0,
            menu_index: None,
            active_menu: Menus::Course,
            courses,
            assignments,
        };
        assert(w@.titles =~= seq!["Courses"@, "Assignments"@]);
        assert(w@.assignments =~= Seq::new(w@.courses.len(), |i: int| SlotView::Absent));
        w
    }

    /// Moves to the next tab, from the last to the first.
    pub fn next(&mut self)
        ensures
            final(self)@ == old(self)@.next(),
            final(self)@.wf(),
    {
        proof {
            use_type_invariant(&*self);
        }
        assert(self.index < self.titles.len());
        self.index = (self.index + 1) % self.titles.len();
    }

    /// Moves to the previous tab, from the first to the last.
    pub fn previous(&mut self)
        ensures
            final(self)@ == old(self)@.previous(),
            final(self)@.wf(),
    {
        proof {
            use_type_invariant(&*self);
        }
        if self.index > 0 {
            self.index -= 1;
        } else {
            self.index = self.titles.len() - 1;
        }
    }

    /// Selects the course below the selected one, from the last to the
    /// first; the first course where none is selected. Without courses
    /// nothing is selected and nothing changes.
    pub fn menu_down(&mut self)
        ensures
            final(self)@ == old(self)@.menu_down(),
            final(self)@.wf(),
    {
        proof {
            use_type_invariant(&*self);
        }
        let n: usize = self.courses.len();
        if n > 0 {
            self.menu_index = Some(
                match self.menu_index {
                    Some(i) => (i + 1) % n,
                    None => 0,
                },
            );
        }
    }

    /// Selects the course above the selected one, from the first to the
    /// last; the last course where none is selected. Without courses
    /// nothing is selected and nothing changes.
    pub fn menu_up(&mut self)
        ensures
            final(self)@ == old(self)@.menu_up(),
            final(self)@.wf(),
    {
        proof {
            use_type_invariant(&*self);
        }
        let n: usize = self.courses.len();
        if n > 0 {
            self.menu_index = Some(
                match self.menu_index {
                    Some(i) if i > 0 => i - 1,
                    _ => n - 1,
                },
            );
        }
    }

    /// Makes `menu` the active content pane.
    pub fn set_active_menu(&mut self, menu: Menus)
        ensures
            final(self)@ == old(self)@.set_active_menu(menu),
            final(self)@.wf(),
    {
        proof {
            use_type_invariant(&*self);
        }
        self.active_menu = menu;
    }

    /// Asks for the assignments on view if they were never asked for.
    pub fn request(&mut self) -> (action: Action)
        ensures
            (final(self)@, action@) == old(self)@.request(),
            final(self)@.wf(),
    {
        proof {
            use_type_invariant(&*self);
        }
        if self.active_menu == Menus::Assignments {
            if let Some(i) = self.menu_index {
                let absent: bool = match &self.assignments[i] {
                    Slot::Absent => true,
                    _ => false,
                };
                if absent {
                    let id: String = self.courses[i].id();
                    self.assignments[i] = Slot::Loading;
                    assert(slot_views(self.assignments@) =~= slot_views(
                        old(self).assignments@,
                    ).update(i as int, SlotView::Loading));
                    return Action::Fetch(id);
                }
            }
        }
        Action::Continue
    }

    /// Applies one key press and says what the loop has to do next. Every
    /// key is accepted; one that is not mapped changes nothing.
    pub fn dispatch(&mut self, key: Key) -> (action: Action)
        ensures
            (final(self)@, action@) == old(self)@.dispatch(key),
            final(self)@.wf(),
    {
        proof {
            use_type_invariant(&*self);
        }
        match key {
            Key::Right => self.next(),
            Key::Left => self.previous(),
            Key::Down => self.menu_down(),
            Key::Up => self.menu_up(),
            Key::Char(c) => {
                if c == 'q' {
                    return Action::Quit;
                } else if c == 'a' {
                    self.set_active_menu(Menus::Assignments);
                } else if c == 'c' {
                    self.set_active_menu(Menus::Course);
                } else if c == 'd' {
                    self.set_active_menu(Menus::Description);
                } else {
                    return Action::Continue;
                }
            },
            Key::Other => {
                return Action::Continue;
            },
        }
        self.request()
    }

    /// Takes in what the service answered for the course with id
    /// `course_id`. The answer fills the slot of that course if the slot is
    /// `Loading`; otherwise it is dropped.
    pub fn deliver(&mut self, course_id: &str, outcome: Result<Vec<String>, FetchError>)
        ensures
            final(self)@ == old(self)@.deliver(course_id@, outcome_view(outcome)),
            final(self)@.wf(),
    {
        proof {
            use_type_invariant(&*self);
        }
        match position_of(&self.courses, course_id) {
            Some(i) => {
                let waiting: bool = match &self.assignments[i] {
                    Slot::Loading => true,
                    _ => false,
                };
                if waiting {
                    let slot: Slot = match outcome {
                        Ok(names) => Slot::Loaded(assignments_named(&names)),
                        Err(e) => Slot::Failed(e),
                    };
                    self.assignments[i] = slot;
                }
                assert forall|k: int| 0 <= k < self.courses.len() && k != i implies course_views(
                    self.courses@,
                )[k].id != course_id@ by {
                    if i < k {
                        assert(course_views(self.courses@)[i as int].id != course_views(
                            self.courses@,
                        )[k].id);
                    }
                }
            },
            None => {},
        }
        assert(self@.assignments =~= old(self)@.deliver(
            course_id@,
            outcome_view(outcome),
        ).assignments);
    }

    /// The tab titles, in the order of the tab bar.
    pub fn titles(&self) -> (titles: &Vec<&'a str>)
        ensures
            titles@.map_values(|t: &str| t@) == self@.titles,
    {
        &self.titles
    }

    /// The active tab.
    pub fn index(&self) -> (i: usize)
        ensures
            i == self@.index,
            i < self@.titles.len(),
    {
        proof {
            use_type_invariant(self);
        }
        self.index
    }

    /// The selected course, if any.
    pub fn menu_index(&self) -> (i: Option<usize>)
        ensures
            match i {
                Some(k) => self@.menu_index == Some(k as nat) && k < self@.courses.len(),
                None => self@.menu_index is None,
            },
    {
        proof {
            use_type_invariant(self);
        }
        self.menu_index
    }

    /// The active content pane.
    pub fn active_menu(&self) -> (menu: Menus)
        ensures
            menu == self@.active_menu,
    {
        self.active_menu
    }

    /// The courses of the session.
    pub fn courses(&self) -> (courses: &Vec<Course>)
        ensures
            course_views(courses@) == self@.courses,
            distinct_ids(course_views(courses@)),
    {
        proof {
            use_type_invariant(self);
        }
        &self.courses
    }

    /// What is held of the assignments of the course at position `i`.
    pub fn slot(&self, i: usize) -> (slot: Option<&Slot>)
        ensures
            match slot {
                Some(s) => i < self@.courses.len() && s@ == self@.assignments[i as int],
                None => i >= self@.courses.len(),
            },
    {
        proof {
            use_type_invariant(self);
        }
        if i < self.assignments.len() {
            Some(&self.assignments[i])
        } else {
            None
        }
    }
}

/// The assignments with the given names, in order.
pub fn assignments_named(names: &Vec<String>) -> (list: Vec<Assignment>)
    ensures
        assignment_names(list@) == names@.map_values(|n: String| n@),
{
    let mut list: Vec<Assignment> = Vec::new();
    let mut k: usize = 0;
    while k < names.len()
        invariant
            k <= names.len(),
            list.len() == k,
            forall|j: int| 0 <= j < k ==> list[j]@ == names[j]@,
        decreases names.len() - k,
    {
        list.push(Assignment::new(names[k].clone()));
        k += 1;
    }
    list
}

} // verus!
