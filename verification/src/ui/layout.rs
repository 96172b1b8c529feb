//! Rectangles on the terminal and the rules by which one is divided.

use tui::layout::{Constraint, Direction, Layout, Rect};
use vstd::prelude::*;

verus! {

/// A rectangle of terminal cells.
#[derive(Clone, Copy, Debug, PartialEq, Eq, Structural)]
pub struct Area {
    pub x: u16,
    pub y: u16,
    pub width: u16,
    pub height: u16,
}

/// The direction along which an area is divided.
#[derive(Clone, Copy, Debug, PartialEq, Eq, Structural)]
pub enum Axis {
    /// Side by side: the parts share the height.
    Horizontal,
    /// One above the other: the parts share the width.
    Vertical,
}

/// What one part of a divided area asks for along the axis.
#[derive(Clone, Copy, Debug, PartialEq, Eq, Structural)]
pub enum Rule {
    /// That many hundredths of what there is.
    Percentage(u16),
    /// That many cells.
    Length(u16),
    /// At least that many cells.
    Min(u16),
}

/// A division of an area, as contracts see it.
pub struct SplitView {
    pub axis: Axis,
    pub margin: u16,
    pub rules: Seq<Rule>,
}

/// A division of an area into one part per rule, inside a margin.
#[derive(Debug, PartialEq, Eq)]
pub struct Split {
    pub axis: Axis,
    pub margin: u16,
    pub rules: Vec<Rule>,
}

impl View for Split {
    type V = SplitView;

    open spec fn view(&self) -> SplitView {
        SplitView { axis: self.axis, margin: self.margin, rules: self.rules@ }
    }
}

impl Area {
    /// The area inside a margin of `margin` cells on every side, for a
    /// margin whose double fits in 16 bits; the empty area at the origin
    /// where the margin leaves nothing.
    pub open spec fn inner(self, margin: u16) -> Area {
        if self.width < 2 * margin || self.height < 2 * margin {
            Area { x: 0, y: 0, width: 0, height: 0 }
        } else {
            Area {
                x: (self.x + margin) as u16,
                y: (self.y + margin) as u16,
                width: (self.width - 2 * margin) as u16,
                height: (self.height - 2 * margin) as u16,
            }
        }
    }

    /// How far the area reaches along `axis`.
    pub open spec fn extent(self, axis: Axis) -> u16 {
        match axis {
            Axis::Horizontal => self.width,
            Axis::Vertical => self.height,
        }
    }
}

impl SplitView {
    /// The margin can be taken off `area` within 16 bits.
    pub open spec fn margin_fits(self, area: Area) -> bool {
        &&& 2 * self.margin <= u16::MAX
        &&& area.width >= 2 * self.margin && area.height >= 2 * self.margin ==> area.x
            + self.margin <= u16::MAX && area.y + self.margin <= u16::MAX
    }

    /// The rule at `i` can be worked out on `area` within 16 bits: a
    /// percentage times the extent inside the margin does not overflow.
    pub open spec fn rule_fits(self, area: Area, i: int) -> bool {
        self.rules[i] matches Rule::Percentage(p) ==> p * area.inner(self.margin).extent(
            self.axis,
        ) <= u16::MAX
    }

    /// Where there is a part at all, the far edge of the area inside the
    /// margin, across the axis, lies within 16 bits: every part spans the
    /// area across the axis, from edge to edge.
    pub open spec fn span_fits(self, area: Area) -> bool {
        let inner = area.inner(self.margin);
        self.rules.len() > 0 ==> match self.axis {
            Axis::Horizontal => inner.y + inner.height <= u16::MAX,
            Axis::Vertical => inner.x + inner.width <= u16::MAX,
        }
    }

    /// The division can be worked out on `area` with 16-bit arithmetic.
    pub open spec fn fits(self, area: Area) -> bool {
        &&& self.margin_fits(area)
        &&& self.span_fits(area)
        &&& forall|i: int| 0 <= i < self.rules.len() ==> self.rule_fits(area, i)
    }
}

/// Calls `tui::layout::Layout::split` on a layout built from `axis`,
/// `margin` and `rules`. The solver behind it may settle a tie between
/// rules either way, so all that is claimed of the result is what the body
/// of `split` shows before and after solving: one rectangle per rule.
/// The condition keeps out the inputs on which `split` panics: those on
/// which it or `Rect::inner` overflows a `u16`, and those on which the far
/// edge across the axis is cut off at `u16::MAX`, where the solver is handed
/// requirements that contradict each other.
#[verifier::external_body]
fn tui_split(axis: Axis, margin: u16, rules: &Vec<Rule>, area: Area) -> (parts: Vec<Area>)
    requires
        (SplitView { axis, margin, rules: rules@ }).fits(area),
    ensures
        parts.len() == rules.len(),
{
    let rules: Vec<Constraint> = rules.iter().map(|r| match *r {
        Rule::Percentage(p) => Constraint::Percentage(p),
        Rule::Length(n) => Constraint::Length(n),
        Rule::Min(n) => Constraint::Min(n),
    }).collect();
    let direction = match axis {
        Axis::Horizontal => Direction::Horizontal,
        Axis::Vertical => Direction::Vertical,
    };
    let area = Rect { x: area.x, y: area.y, width: area.width, height: area.height };
    let parts = Layout::default().direction(direction).margin(margin).constraints(rules).split(area);
    parts.iter().map(|p| Area { x: p.x, y: p.y, width: p.width, height: p.height }).collect()
}

impl Split {
    /// Whether the division can be worked out on `area`.
    pub fn fits(&self, area: Area) -> (b: bool)
        ensures
            b == self@.fits(area),
    {
        if self.margin > u16::MAX / 2 {
            return false;
        }
        let twice: u16 = 2 * self.margin;
        let kept: bool = area.width >= twice && area.height >= twice;
        if kept && (area.x > u16::MAX - self.margin || area.y > u16::MAX - self.margin) {
            return false;
        }
        let inner = if kept {
            Area {
                x: area.x + self.margin,
                y: area.y + self.margin,
                width: area.width - twice,
                height: area.height - twice,
            }
        } else {
            Area { x: 0, y: 0, width: 0, height: 0 }
        };
        let (near, extent): (u16, u16) = match self.axis {
            Axis::Horizontal => (inner.y, inner.width),
            Axis::Vertical => (inner.x, inner.height),
        };
        let span: u16 = match self.axis {
            Axis::Horizontal => inner.height,
            Axis::Vertical => inner.width,
        };
        if self.rules.len() > 0 && near > u16::MAX - span {
            return false;
        }
        let mut i: usize = 0;
        while i < self.rules.len()
            invariant
                i <= self.rules.len(),
                self@.margin_fits(area),
                self@.span_fits(area),
                extent == area.inner(self.margin).extent(self.axis),
                forall|k: int| 0 <= k < i ==> self@.rule_fits(area, k),
            decreases self.rules.len() - i,
        {
            match self.rules[i] {
                Rule::Percentage(p) => {
                    if extent > 0 && p > u16::MAX / extent {
                        assert(p * extent > u16::MAX) by (nonlinear_arith)
                            requires
                                extent > 0,
                                p > u16::MAX / extent,
                        ;
                        assert(!self@.rule_fits(area, i as int));
                        return false;
                    }
                    assert(p * extent <= u16::MAX) by (nonlinear_arith)
                        requires
                            extent == 0 || p <= u16::MAX / extent,
                    ;
                },
                _ => {},
            }
            i += 1;
        }
        true
    }

    /// Divides `area`: one part per rule, in the order of the rules. There
    /// is a result exactly where the division can be worked out on `area`.
    pub fn areas(&self, area: Area) -> (parts: Option<Vec<Area>>)
        ensures
            parts is Some <==> self@.fits(area),
            parts matches Some(p) ==> p.len() == self@.rules.len(),
    {
        if self.fits(area) {
            Some(tui_split(self.axis, self.margin, &self.rules, area))
        } else {
            None
        }
    }
}

} // verus!
