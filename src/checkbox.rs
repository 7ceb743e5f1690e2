//! The multi-select prompt: a cursor over the options, moved by the arrow
//! keys, Space to check or uncheck the cursor's row, Enter to finish and
//! Ctrl-C or Ctrl-D to cancel.
use vstd::prelude::*;
use crate::cursor::{wrap_down, wrap_up, wrapped_down, wrapped_up};
use crate::event::Event;
use crate::render::Mark;

verus! {

/// What a multi-select prompt looks like from outside: the cursor, the
/// number of rows and the 1-based positions of the checked rows.
pub struct CheckboxView {
    pub pos: nat,
    pub total: nat,
    pub selected: Set<nat>,
}

/// What the caller does after one event of a multi-select prompt.
#[derive(Clone, Copy, Debug, PartialEq, Eq, Structural)]
pub enum CheckboxStep {
    /// The cursor or the checked rows may have changed: draw the list again.
    Redraw,
    /// Enter: the prompt is over and the checked rows stand.
    Finished,
    /// Ctrl-C or Ctrl-D: the user gave up.
    Cancelled,
}

/// The set with `p` added if it was absent and removed if it was present.
pub open spec fn toggled(s: Set<nat>, p: nat) -> Set<nat> {
    if s.contains(p) {
        s.remove(p)
    } else {
        s.insert(p)
    }
}

/// The state and the step that follow one event.
pub open spec fn checkbox_next(v: CheckboxView, e: Event) -> (CheckboxView, CheckboxStep) {
    match e {
        Event::Enter => (v, CheckboxStep::Finished),
        Event::CtrlC | Event::CtrlD => (v, CheckboxStep::Cancelled),
        Event::Space => (
            CheckboxView { selected: toggled(v.selected, v.pos), ..v },
            CheckboxStep::Redraw,
        ),
        Event::Up => (CheckboxView { pos: wrapped_up(v.pos, v.total), ..v }, CheckboxStep::Redraw),
        _ => (CheckboxView { pos: wrapped_down(v.pos, v.total), ..v }, CheckboxStep::Redraw),
    }
}

/// The state after a run of events, each applied in turn.
pub open spec fn checkbox_run(v: CheckboxView, events: Seq<Event>) -> CheckboxView
    decreases events.len(),
{
    if events.len() == 0 {
        v
    } else {
        checkbox_run(checkbox_next(v, events[0]).0, events.drop_first())
    }
}

/// The cursor lies on a row and only rows are checked.
pub open spec fn checkbox_view_wf(v: CheckboxView) -> bool {
    &&& 1 <= v.pos <= v.total
    &&& forall|i: nat| v.selected.contains(i) ==> 1 <= i <= v.total
}

/// The mark of the row at 1-based position `i`: checked rows show a filled
/// circle, the cursor's row a highlighted outline, the others a plain one.
pub open spec fn checkbox_mark(v: CheckboxView, i: nat) -> Mark {
    if v.selected.contains(i) {
        Mark::Checked
    } else if i == v.pos {
        Mark::Cursor
    } else {
        Mark::Outline
    }
}

/// The row marks of a multi-select prompt, top to bottom.
pub open spec fn checkbox_marks(v: CheckboxView) -> Seq<Mark> {
    Seq::new(v.total, |i: int| checkbox_mark(v, (i + 1) as nat))
}

/// The state of a multi-select prompt over `total` options.
pub struct CheckboxPrompt {
    pos: usize,
    total: usize,
    /// `checked[i]` tells whether the row at position `i + 1` is checked.
    checked: Vec<bool>,
}

impl View for CheckboxPrompt {
    type V = CheckboxView;

    closed spec fn view(&self) -> CheckboxView {
        CheckboxView {
            pos: self.pos as nat,
            total: self.total as nat,
            selected: Set::new(
                |i: nat| 1 <= i <= self.total && self.checked@[i - 1] == true,
            ),
        }
    }
}

impl CheckboxPrompt {
    /// The cursor lies on a row and there is one flag per row.
    pub closed spec fn wf(&self) -> bool {
        &&& 1 <= self.pos <= self.total
        &&& self.checked@.len() == self.total
    }

    /// A well-formed prompt looks well-formed from outside.
    pub proof fn lemma_wf_view(&self)
        requires
            self.wf(),
        ensures
            checkbox_view_wf(self@),
    {
    }

    /// A prompt over `total` options, with the cursor on the first row and
    /// nothing checked.
    pub fn new(total: usize) -> (r: CheckboxPrompt)
        requires
            total >= 1,
        ensures
            r@ == (CheckboxView { pos: 1, total: total as nat, selected: Set::empty() }),
            r.wf(),
    {
        let mut checked: Vec<bool> = Vec::new();
        let mut i: usize = 0;
        while i < total
            invariant
                i <= total,
                checked@.len() == i,
                forall|j: int| 0 <= j < i ==> checked@[j] == false,
            decreases total - i,
        {
            checked.push(false);
            i += 1;
        }
        let r = CheckboxPrompt { pos: 1, total, checked };
        assert(r@.selected =~= Set::empty());
        r
    }

    /// The 1-based position of the highlighted row.
    pub fn pos(&self) -> (r: usize)
        ensures
            r == self@.pos,
    {
        self.pos
    }

    /// The number of rows.
    pub fn total(&self) -> (r: usize)
        ensures
            r == self@.total,
    {
        self.total
    }

    /// Whether the row at 1-based position `i` is checked.
    pub fn is_checked(&self, i: usize) -> (r: bool)
        requires
            self.wf(),
        ensures
            r == self@.selected.contains(i as nat),
    {
        if i >= 1 && i <= self.total {
            self.checked[i - 1]
        } else {
            false
        }
    }

    /// Applies one event: Enter finishes, Ctrl-C and Ctrl-D cancel, Space
    /// checks or unchecks the cursor's row, Up moves the cursor up and any
    /// other key moves it down.
    pub fn step(&mut self, e: Event) -> (r: CheckboxStep)
        requires
            old(self).wf(),
        ensures
            (final(self)@, r) == checkbox_next(old(self)@, e),
            final(self).wf(),
    {
        match e {
            Event::Enter => CheckboxStep::Finished,
            Event::CtrlC | Event::CtrlD => CheckboxStep::Cancelled,
            Event::Space => {
                let ghost before = self@;
                let k = self.pos - 1;
                let flag = self.checked[k];
                self.checked.set(k, !flag);
                assert(self@.selected =~= toggled(before.selected, before.pos));
                CheckboxStep::Redraw
            },
            Event::Up => {
                let ghost before = self@;
                self.pos = wrap_up(self.pos, self.total);
                assert(self@.selected =~= before.selected);
                CheckboxStep::Redraw
            },
            _ => {
                let ghost before = self@;
                self.pos = wrap_down(self.pos, self.total);
                assert(self@.selected =~= before.selected);
                CheckboxStep::Redraw
            },
        }
    }

    /// The mark of each row, top to bottom.
    pub fn marks(&self) -> (r: Vec<Mark>)
        requires
            self.wf(),
        ensures
            r@ == checkbox_marks(self@),
    {
        let mut r: Vec<Mark> = Vec::new();
        let mut i: usize = 0;
        while i < self.total
            invariant
                self.wf(),
                i <= self.total,
                r@ == checkbox_marks(self@).take(i as int),
            decreases self.total - i,
        {
            if self.checked[i] {
                r.push(Mark::Checked);
            } else if i + 1 == self.pos {
                r.push(Mark::Cursor);
            } else {
                r.push(Mark::Outline);
            }
            i += 1;
            assert(r@ =~= checkbox_marks(self@).take(i as int));
        }
        assert(r@ =~= checkbox_marks(self@));
        r
    }
}

/// Pressing Space twice on the same row leaves the checked rows as they were,
/// and the cursor where it was.
pub proof fn lemma_space_twice_restores(v: CheckboxView)
    ensures
        checkbox_next(checkbox_next(v, Event::Space).0, Event::Space).0 == v,
        checkbox_next(v, Event::Space).1 == CheckboxStep::Redraw,
{
    let once = checkbox_next(v, Event::Space).0;
    let twice = checkbox_next(once, Event::Space).0;
    assert(twice.selected =~= v.selected);
}

/// Whatever events arrive, the cursor of a multi-select prompt stays on one of
/// its rows after each of them, only rows are ever checked, and the number of
/// rows does not change.
pub proof fn lemma_checkbox_cursor_in_range(v: CheckboxView, events: Seq<Event>)
    requires
        checkbox_view_wf(v),
    ensures
        forall|k: int|
            0 <= k <= events.len() ==> {
                let w = #[trigger] checkbox_run(v, events.take(k));
                checkbox_view_wf(w) && w.total == v.total
            },
{
    assert forall|k: int| 0 <= k <= events.len() implies {
        let w = #[trigger] checkbox_run(v, events.take(k));
        checkbox_view_wf(w) && w.total == v.total
    } by {
        lemma_checkbox_run_wf(v, events.take(k));
    }
}

proof fn lemma_checkbox_run_wf(v: CheckboxView, events: Seq<Event>)
    requires
        checkbox_view_wf(v),
    ensures
        checkbox_view_wf(checkbox_run(v, events)),
        checkbox_run(v, events).total == v.total,
    decreases events.len(),
{
    if events.len() > 0 {
        let next = checkbox_next(v, events[0]).0;
        assert(checkbox_view_wf(next));
        lemma_checkbox_run_wf(next, events.drop_first());
    }
}

} // verus!
