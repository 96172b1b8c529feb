//! What the dashboard draws: a tree of panes made from the navigation
//! state alone, and where its parts go on a terminal of a given size.

use crate::ui::course::course_views;
use crate::ui::layout::{Area, Axis, Rule, Split, SplitView};
use crate::ui::window::{assignment_names, Menus, Slot, SlotView, Window, WindowView};
use vstd::prelude::*;

verus! {

/// How a line is drawn.
#[derive(Clone, Copy, Debug, PartialEq, Eq, Structural)]
pub enum Style {
    /// Like every other line.
    Plain,
    /// Set apart: the active tab, the selected course.
    Highlighted,
}

/// A line of text with its style, in contracts.
pub struct LineView {
    pub text: Seq<char>,
    pub style: Style,
}

/// A line of text with its style.
#[derive(Debug, PartialEq, Eq)]
pub struct Line {
    pub text: String,
    pub style: Style,
}

impl View for Line {
    type V = LineView;

    open spec fn view(&self) -> LineView {
        LineView { text: self.text@, style: self.style }
    }
}

/// The views of the lines of a vector, in order.
pub open spec fn line_views(lines: Seq<Line>) -> Seq<LineView> {
    lines.map_values(|l: Line| l@)
}

/// What a pane shows, in contracts.
pub enum ContentView {
    List(Seq<LineView>),
    Message(Seq<char>),
}

/// What a pane shows.
#[derive(Debug, PartialEq, Eq)]
pub enum Content {
    /// One line per item, in order.
    List(Vec<Line>),
    /// A sentence in place of a list.
    Message(String),
}

impl View for Content {
    type V = ContentView;

    open spec fn view(&self) -> ContentView {
        match self {
            Content::List(lines) => ContentView::List(line_views(lines@)),
            Content::Message(text) => ContentView::Message(text@),
        }
    }
}

/// A bordered pane, in contracts.
pub struct PaneView {
    pub title: Seq<char>,
    pub content: ContentView,
}

/// A bordered pane with a title.
#[derive(Debug, PartialEq, Eq)]
pub struct Pane {
    pub title: String,
    pub content: Content,
}

impl View for Pane {
    type V = PaneView;

    open spec fn view(&self) -> PaneView {
        PaneView { title: self.title@, content: self.content@ }
    }
}

/// The whole screen, in contracts.
pub struct ScreenView {
    pub frame: SplitView,
    pub header: Seq<LineView>,
    pub body_split: SplitView,
    pub body: PaneView,
    pub footer: Seq<char>,
}

/// The whole screen: a frame divided into header, body and footer, the tab
/// bar in the header, the active pane in the first part of the divided body,
/// the key hints in the footer.
#[derive(Debug, PartialEq, Eq)]
pub struct Screen {
    pub frame: Split,
    pub header: Vec<Line>,
    pub body_split: Split,
    pub body: Pane,
    pub footer: String,
}

impl View for Screen {
    type V = ScreenView;

    open spec fn view(&self) -> ScreenView {
        ScreenView {
            frame: self.frame@,
            header: line_views(self.header@),
            body_split: self.body_split@,
            body: self.body@,
            footer: self.footer@,
        }
    }
}

/// The division of the screen: inside a margin of two cells, three rows
/// for the header, the rest for the body, three rows for the footer.
pub open spec fn frame_split() -> SplitView {
    SplitView {
        axis: Axis::Vertical,
        margin: 2,
        rules: seq![Rule::Length(3), Rule::Min(2), Rule::Length(3)],
    }
}

/// The division of the body for `menu`: inside a margin of one cell, 30 and
/// 50 hundredths, side by side for the courses and one above the other for
/// the rest. The pane goes into the first part.
pub open spec fn body_split(menu: Menus) -> SplitView {
    SplitView {
        axis: match menu {
            Menus::Course => Axis::Horizontal,
            _ => Axis::Vertical,
        },
        margin: 1,
        rules: seq![Rule::Percentage(30), Rule::Percentage(50)],
    }
}

/// The keys, as the footer names them.
pub open spec fn key_hints() -> Seq<char> {
    "q quit | Left/Right tabs | Up/Down select | c courses | a assignments | d description"@
}

impl WindowView {
    /// The tab bar: every title, the active one highlighted.
    pub open spec fn tab_bar(self) -> Seq<LineView> {
        Seq::new(
            self.titles.len(),
            |i: int|
                LineView {
                    text: self.titles[i],
                    style: if i == self.index {
                        Style::Highlighted
                    } else {
                        Style::Plain
                    },
                },
        )
    }

    /// The course pane: every course by name, the selected one highlighted.
    pub open spec fn course_pane(self) -> PaneView {
        PaneView {
            title: "Courses"@,
            content: ContentView::List(
                Seq::new(
                    self.courses.len(),
                    |i: int|
                        LineView {
                            text: self.courses[i].name,
                            style: if self.menu_index == Some(i as nat) {
                                Style::Highlighted
                            } else {
                                Style::Plain
                            },
                        },
                ),
            ),
        }
    }

    /// The assignment pane: the assignments of the selected course by name
    /// once they are there; before that, or with no course selected, or
    /// after a failure, a sentence that says so.
    pub open spec fn assignment_pane(self) -> PaneView {
        PaneView {
            title: "Assignments"@,
            content: match self.menu_index {
                None => ContentView::Message("No course selected"@),
                Some(i) => match self.assignments[i as int] {
                    SlotView::Absent => ContentView::Message("Assignments not loaded yet"@),
                    SlotView::Loading => ContentView::Message("Loading assignments..."@),
                    SlotView::Loaded(names) => ContentView::List(
                        Seq::new(
                            names.len(),
                            |k: int| LineView { text: names[k], style: Style::Plain },
                        ),
                    ),
                    SlotView::Failed(e) => ContentView::Message(e.text()),
                },
            },
        }
    }

    /// The description pane: the name of the selected course, or a sentence
    /// that says that none is selected.
    pub open spec fn description_pane(self) -> PaneView {
        PaneView {
            title: "Description"@,
            content: match self.menu_index {
                None => ContentView::Message("No course selected"@),
                Some(i) => ContentView::Message(self.courses[i as int].name),
            },
        }
    }

    /// The pane of the active menu.
    pub open spec fn body(self) -> PaneView {
        match self.active_menu {
            Menus::Course => self.course_pane(),
            Menus::Assignments => self.assignment_pane(),
            Menus::Description => self.description_pane(),
        }
    }

    /// The screen for this state.
    pub open spec fn screen(self) -> ScreenView {
        ScreenView {
            frame: frame_split(),
            header: self.tab_bar(),
            body_split: body_split(self.active_menu),
            body: self.body(),
            footer: key_hints(),
        }
    }
}

impl<'a> Window<'a> {
    /// The tab bar for this state.
    pub fn render_tabs(&self) -> (tabs: Vec<Line>)
        ensures
            line_views(tabs@) == self@.tab_bar(),
    {
        let titles = self.titles();
        let active: usize = self.index();
        let mut tabs: Vec<Line> = Vec::new();
        let mut i: usize = 0;
        while i < titles.len()
            invariant
                i <= titles.len(),
                tabs.len() == i,
                titles@.map_values(|t: &str| t@) == self@.titles,
                active == self@.index,
                forall|k: int| 0 <= k < i ==> tabs[k]@ == self@.tab_bar()[k],
            decreases titles.len() - i,
        {
            let style = if i == active {
                Style::Highlighted
            } else {
                Style::Plain
            };
            tabs.push(Line { text: titles[i].to_owned(), style });
            i += 1;
        }
        tabs
    }

    /// The course pane for this state.
    pub fn render_courses(&self) -> (pane: Pane)
        ensures
            pane@ == self@.course_pane(),
    {
        let courses = self.courses();
        let selected: Option<usize> = self.menu_index();
        let mut lines: Vec<Line> = Vec::new();
        let mut i: usize = 0;
        while i < courses.len()
            invariant
                i <= courses.len(),
                lines.len() == i,
                course_views(courses@) == self@.courses,
                match selected {
                    Some(k) => self@.menu_index == Some(k as nat),
                    None => self@.menu_index is None,
                },
                forall|k: int|
                    0 <= k < i ==> lines[k]@ == self@.course_pane().content->List_0[k],
            decreases courses.len() - i,
        {
            let style = match selected {
                Some(k) if k == i => Style::Highlighted,
                _ => Style::Plain,
            };
            lines.push(Line { text: courses[i].name(), style });
            i += 1;
        }
        assert(line_views(lines@) =~= self@.course_pane().content->List_0);
        Pane { title: "Courses".to_owned(), content: Content::List(lines) }
    }

    /// The assignment pane for this state.
    pub fn render_assignments(&self) -> (pane: Pane)
        ensures
            pane@ == self@.assignment_pane(),
    {
        let content = match self.menu_index() {
            None => Content::Message("No course selected".to_owned()),
            Some(i) => match self.slot(i) {
                Some(Slot::Loading) => Content::Message("Loading assignments...".to_owned()),
                Some(Slot::Loaded(list)) => {
                    let mut lines: Vec<Line> = Vec::new();
                    let mut k: usize = 0;
                    while k < list.len()
                        invariant
                            k <= list.len(),
                            lines.len() == k,
                            forall|j: int|
                                0 <= j < k ==> lines[j]@ == (LineView {
                                    text: list[j]@,
                                    style: Style::Plain,
                                }),
                        decreases list.len() - k,
                    {
                        lines.push(Line { text: list[k].name(), style: Style::Plain });
                        k += 1;
                    }
                    let ghost names = assignment_names(list@);
                    assert(line_views(lines@) =~= Seq::new(
                        names.len(),
                        |k: int| LineView { text: names[k], style: Style::Plain },
                    ));
                    Content::List(lines)
                },
                Some(Slot::Failed(e)) => Content::Message(e.message()),
                _ => Content::Message("Assignments not loaded yet".to_owned()),
            },
        };
        Pane { title: "Assignments".to_owned(), content }
    }

    /// The description pane for this state.
    pub fn render_description(&self) -> (pane: Pane)
        ensures
            pane@ == self@.description_pane(),
    {
        let content = match self.menu_index() {
            None => Content::Message("No course selected".to_owned()),
            Some(i) => {
                let courses = self.courses();
                Content::Message(courses[i].name())
            },
        };
        Pane { title: "Description".to_owned(), content }
    }

    /// The screen for this state. It is made from the state alone: equal
    /// states give equal screens, however often it is called.
    pub fn ui(&self) -> (screen: Screen)
        ensures
            screen@ == self@.screen(),
    {
        let menu = self.active_menu();
        let body = match menu {
            Menus::Course => self.render_courses(),
            Menus::Assignments => self.render_assignments(),
            Menus::Description => self.render_description(),
        };
        let axis = match menu {
            Menus::Course => Axis::Horizontal,
            _ => Axis::Vertical,
        };
        let screen = Screen {
            frame: Split {
                axis: Axis::Vertical,
                margin: 2,
                rules: vec![Rule::Length(3), Rule::Min(2), Rule::Length(3)],
            },
            header: self.render_tabs(),
            body_split: Split {
                axis,
                margin: 1,
                rules: vec![Rule::Percentage(30), Rule::Percentage(50)],
            },
            body,
            footer: "q quit | Left/Right tabs | Up/Down select | c courses | a assignments | d description".to_owned(),
        };
        screen
    }
}

/// Where the parts of a screen go.
#[derive(Clone, Copy, Debug, PartialEq, Eq, Structural)]
pub struct Placement {
    pub header: Area,
    pub body: Area,
    pub footer: Area,
}

/// The places of header, body pane and footer among the parts of the frame
/// and the parts of the body: the first and third part of the frame, and
/// the first part of the body.
pub open spec fn picked(frame_parts: Seq<Area>, body_parts: Seq<Area>) -> Placement {
    Placement { header: frame_parts[0], body: body_parts[0], footer: frame_parts[2] }
}

impl Screen {
    /// Picks the places of header, body pane and footer from the parts of
    /// the frame and the parts of the body. There is a result exactly where
    /// those parts exist.
    pub fn arrange(frame_parts: &Vec<Area>, body_parts: &Vec<Area>) -> (placed: Option<Placement>)
        ensures
            placed == if frame_parts.len() >= 3 && body_parts.len() >= 1 {
                Some(picked(frame_parts@, body_parts@))
            } else {
                None
            },
    {
        if frame_parts.len() >= 3 && body_parts.len() >= 1 {
            Some(Placement { header: frame_parts[0], body: body_parts[0], footer: frame_parts[2] })
        } else {
            None
        }
    }

    /// Places the screen on a terminal of size `size`: divides `size` by
    /// the frame, the second part of that by the division of the body, and
    /// arranges the parts. How large the parts are is settled outside this
    /// crate, so the contract says what holds whatever they are: a result
    /// is made of parts of divisions that could be worked out; there is
    /// none where the frame cannot be worked out on `size` or a part that
    /// is to be picked is missing; and there is one where nothing else is
    /// in the way, that is, where the division of the body can be worked
    /// out on every area.
    pub fn place(&self, size: Area) -> (placed: Option<Placement>)
        ensures
            placed matches Some(p) ==> exists|frame_parts: Seq<Area>, body_parts: Seq<Area>|
                {
                    &&& self@.frame.fits(size)
                    &&& frame_parts.len() == self@.frame.rules.len() >= 3
                    &&& self@.body_split.fits(frame_parts[1])
                    &&& body_parts.len() == self@.body_split.rules.len() >= 1
                    &&& p == #[trigger] picked(frame_parts, body_parts)
                },
            !self@.frame.fits(size) || self@.frame.rules.len() < 3 || self@.body_split.rules.len()
                < 1 ==> placed is None,
            self@.frame.fits(size) && self@.frame.rules.len() >= 3 && self@.body_split.rules.len()
                >= 1 && (forall|area: Area| self@.body_split.fits(area)) ==> placed is Some,
    {
        match self.frame.areas(size) {
            Some(frame_parts) => {
                if frame_parts.len() < 3 {
                    return None;
                }
                match self.body_split.areas(frame_parts[1]) {
                    Some(body_parts) => {
                        Screen::arrange(&frame_parts, &body_parts)
                    },
                    None => None,
                }
            },
            None => None,
        }
    }
}

} // verus!
