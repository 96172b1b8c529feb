//! What holds of the navigation state whatever the keys pressed.

use crate::error::FetchError;
use crate::ui::window::{ActionView, Key, Menus, SlotView, WindowView};
use vstd::arithmetic::div_mod::{lemma_mod_self_0, lemma_small_mod};
use vstd::prelude::*;

verus! {

/// The state after `k` steps forward through the tabs.
pub open spec fn next_times(w: WindowView, k: nat) -> WindowView
    decreases k,
{
    if k == 0 {
        w
    } else {
        next_times(w.next(), (k - 1) as nat)
    }
}

/// The state after `k` steps back through the tabs.
pub open spec fn previous_times(w: WindowView, k: nat) -> WindowView
    decreases k,
{
    if k == 0 {
        w
    } else {
        previous_times(w.previous(), (k - 1) as nat)
    }
}

/// `i + k` counted round a circle of `n` places, for `i < n` and `k <= n`.
spec fn round(i: nat, k: nat, n: nat) -> nat {
    if i + k < n {
        i + k
    } else {
        (i + k - n) as nat
    }
}

/// `i - k` counted round a circle of `n` places, for `i < n` and `k <= n`.
spec fn round_back(i: nat, k: nat, n: nat) -> nat {
    if k <= i {
        (i - k) as nat
    } else {
        (i + n - k) as nat
    }
}

proof fn lemma_step_round(i: nat, n: nat)
    requires
        i < n,
    ensures
        (i + 1) % n == round(i, 1, n),
{
    if i + 1 < n {
        lemma_small_mod(i + 1, n);
    } else {
        lemma_mod_self_0(n as int);
    }
}

proof fn lemma_next_times(w: WindowView, k: nat)
    requires
        w.wf(),
        k <= w.titles.len(),
    ensures
        next_times(w, k) == (WindowView { index: round(w.index, k, w.titles.len()), ..w }),
    decreases k,
{
    if k > 0 {
        lemma_step_round(w.index, w.titles.len());
        lemma_next_times(w.next(), (k - 1) as nat);
    }
}

proof fn lemma_previous_times(w: WindowView, k: nat)
    requires
        w.wf(),
        k <= w.titles.len(),
    ensures
        previous_times(w, k) == (WindowView {
            index: round_back(w.index, k, w.titles.len()),
            ..w
        }),
    decreases k,
{
    if k > 0 {
        lemma_previous_times(w.previous(), (k - 1) as nat);
    }
}

/// The tabs form a circle: as many steps forward as there are tabs lead
/// back to the tab one started from, and nothing else has changed.
pub proof fn theorem_next_comes_round(w: WindowView)
    requires
        w.wf(),
    ensures
        next_times(w, w.titles.len()) == w,
{
    lemma_next_times(w, w.titles.len());
}

/// As many steps back as there are tabs lead back to the tab one started
/// from, and nothing else has changed.
pub proof fn theorem_previous_comes_round(w: WindowView)
    requires
        w.wf(),
    ensures
        previous_times(w, w.titles.len()) == w,
{
    lemma_previous_times(w, w.titles.len());
}

/// One step forward and one step back cancel, in either order.
pub proof fn theorem_next_previous_cancel(w: WindowView)
    requires
        w.wf(),
    ensures
        w.next().previous() == w,
        w.previous().next() == w,
{
    lemma_step_round(w.index, w.titles.len());
    lemma_step_round(w.previous().index, w.titles.len());
}

/// With a course selected, moving the selection down and then up leaves
/// the state as it was.
pub proof fn theorem_down_then_up(w: WindowView)
    requires
        w.wf(),
        w.courses.len() > 0,
        w.menu_index is Some,
    ensures
        w.menu_down().menu_up() == w,
{
    lemma_step_round(w.menu_index.unwrap(), w.courses.len());
}

/// Dispatch is total: from a well-formed state every key, mapped or not,
/// leads to a well-formed state; a key that is not mapped changes nothing
/// and lets the loop go on; and only `q` ends the loop.
pub proof fn theorem_dispatch_total(w: WindowView, key: Key)
    requires
        w.wf(),
    ensures
        w.dispatch(key).0.wf(),
        !key.is_mapped() ==> w.dispatch(key) == (w, ActionView::Continue),
        w.dispatch(key).1 == ActionView::Quit <==> key == Key::Char('q'),
{
}

/// The screen is made from what the state holds and from nothing else:
/// states that agree on tabs, selection, courses and assignments give the
/// same screen.
pub proof fn theorem_screen_is_a_function_of_the_state(a: WindowView, b: WindowView)
    requires
        a.titles == b.titles,
        a.index == b.index,
        a.active_menu == b.active_menu,
        a.menu_index == b.menu_index,
        a.courses == b.courses,
        a.assignments == b.assignments,
    ensures
        a.screen() == b.screen(),
{
}

/// The courses and the tabs are fixed for the session: no key changes
/// them, and no answer of the service does.
pub proof fn theorem_snapshot_is_read_only(
    w: WindowView,
    key: Key,
    id: Seq<char>,
    outcome: Result<Seq<Seq<char>>, FetchError>,
)
    requires
        w.wf(),
    ensures
        w.dispatch(key).0.courses == w.courses,
        w.dispatch(key).0.titles == w.titles,
        w.deliver(id, outcome).courses == w.courses,
        w.deliver(id, outcome).titles == w.titles,
        w.deliver(id, outcome).wf(),
{
}

/// What was fetched stays for the session: a slot that holds assignments or
/// a failure is changed by no key and by no later answer, and a slot is
/// only ever filled for a course that was asked for.
pub proof fn theorem_slots_are_kept(
    w: WindowView,
    key: Key,
    id: Seq<char>,
    outcome: Result<Seq<Seq<char>>, FetchError>,
    i: int,
)
    requires
        w.wf(),
        0 <= i < w.courses.len(),
    ensures
        w.assignments[i] != SlotView::Absent ==> w.dispatch(key).0.assignments[i]
            == w.assignments[i],
        w.assignments[i] != SlotView::Loading ==> w.deliver(id, outcome).assignments[i]
            == w.assignments[i],
{
}

/// After a mapped key other than `q` nothing is left to ask for: if the
/// assignment pane is on view and a course is selected, its assignments
/// are there, on their way, or have failed.
pub proof fn theorem_dispatch_settles(w: WindowView, key: Key)
    requires
        w.wf(),
        key.is_mapped(),
        key != Key::Char('q'),
    ensures
        w.dispatch(key).0.wanted() is None,
{
}

/// When a key leads to a fetch, the course asked for is the selected one,
/// the assignment pane is on view, and the course's slot went from `Absent`
/// to `Loading`: each course is asked for at most once.
pub proof fn theorem_fetch_is_for_the_selected_course(w: WindowView, key: Key)
    requires
        w.wf(),
    ensures
        match w.dispatch(key).1 {
            ActionView::Fetch(id) => {
                let after = w.dispatch(key).0;
                &&& after.active_menu == Menus::Assignments
                &&& after.menu_index matches Some(i) && after.courses[i as int].id == id
                    && w.assignments[i as int] == SlotView::Absent && after.assignments[i as int]
                    == SlotView::Loading
            },
            _ => true,
        },
{
}

} // verus!
