//! The single-select prompt: a cursor over the options, moved by the arrow
//! keys, until Enter picks the highlighted row.
use vstd::prelude::*;
use crate::cursor::{wrap_down, wrap_up, wrapped_down, wrapped_up};
use crate::event::Event;
use crate::render::Mark;

verus! {

/// What a single-select prompt looks like from outside.
pub struct ListView {
    pub pos: nat,
    pub total: nat,
}

/// What the caller does after one event of a single-select prompt.
#[derive(Clone, Copy, Debug, PartialEq, Eq, Structural)]
pub enum ListStep {
    /// The cursor may have moved: draw the list again.
    Redraw,
    /// The prompt is over: the option at this 1-based position was picked.
    Chosen(usize),
}

/// The state and the step that follow one event.
pub open spec fn list_next(v: ListView, e: Event) -> (ListView, ListStep) {
    match e {
        Event::Enter => (v, ListStep::Chosen(v.pos as usize)),
        Event::Up => (ListView { pos: wrapped_up(v.pos, v.total), total: v.total }, ListStep::Redraw),
        _ => (ListView { pos: wrapped_down(v.pos, v.total), total: v.total }, ListStep::Redraw),
    }
}

/// The state after a run of events, each applied in turn.
pub open spec fn list_run(v: ListView, events: Seq<Event>) -> ListView
    decreases events.len(),
{
    if events.len() == 0 {
        v
    } else {
        list_run(list_next(v, events[0]).0, events.drop_first())
    }
}

/// The row marks of a single-select prompt: the cursor's row is highlighted,
/// every other row is blank.
pub open spec fn list_marks(v: ListView) -> Seq<Mark> {
    Seq::new(v.total, |i: int| if i + 1 == v.pos { Mark::Cursor } else { Mark::Blank })
}

/// The state of a single-select prompt over `total` options.
pub struct ListPrompt {
    pos: usize,
    total: usize,
}

impl View for ListPrompt {
    type V = ListView;

    closed spec fn view(&self) -> ListView {
        ListView { pos: self.pos as nat, total: self.total as nat }
    }
}

impl ListPrompt {
    /// The cursor lies on one of the rows.
    pub open spec fn wf(&self) -> bool {
        1 <= self@.pos <= self@.total
    }

    /// A prompt over `total` options, with the cursor on the first row.
    pub fn new(total: usize) -> (r: ListPrompt)
        requires
            total >= 1,
        ensures
            r@ == (ListView { pos: 1, total: total as nat }),
            r.wf(),
    {
        ListPrompt { pos: 1, total }
    }

    /// The 1-based position of the highlighted row.
    pub fn pos(&self) -> (r: usize)
        ensures
            r == self@.pos,
    {
        self.pos
    }

    /// The number of rows.
    pub fn total(&self) -> (r: usize)
        ensures
            r == self@.total,
    {
        self.total
    }

    /// Applies one event: Enter picks the highlighted row, Up moves the
    /// cursor up, and any other key moves it down.
    pub fn step(&mut self, e: Event) -> (r: ListStep)
        requires
            old(self).wf(),
        ensures
            (final(self)@, r) == list_next(old(self)@, e),
            final(self).wf(),
    {
        match e {
            Event::Enter => ListStep::Chosen(self.pos),
            Event::Up => {
                self.pos = wrap_up(self.pos, self.total);
                ListStep::Redraw
            },
            _ => {
                self.pos = wrap_down(self.pos, self.total);
                ListStep::Redraw
            },
        }
    }

    /// The mark of each row, top to bottom.
    pub fn marks(&self) -> (r: Vec<Mark>)
        requires
            self.wf(),
        ensures
            r@ == list_marks(self@),
    {
        let mut r: Vec<Mark> = Vec::new();
        let mut i: usize = 0;
        while i < self.total
            invariant
                i <= self.total,
                r@ == list_marks(self@).take(i as int),
            decreases self.total - i,
        {
            if i + 1 == self.pos {
                r.push(Mark::Cursor);
            } else {
                r.push(Mark::Blank);
            }
            i += 1;
            assert(r@ =~= list_marks(self@).take(i as int));
        }
        assert(r@ =~= list_marks(self@));
        r
    }
}

/// Whatever events arrive, the cursor of a single-select prompt stays on one
/// of its rows after each of them, and the number of rows does not change.
pub proof fn lemma_list_cursor_in_range(v: ListView, events: Seq<Event>)
    requires
        1 <= v.pos <= v.total,
    ensures
        forall|k: int|
            0 <= k <= events.len() ==> {
                let w = #[trigger] list_run(v, events.take(k));
                1 <= w.pos <= v.total && w.total == v.total
            },
{
    assert forall|k: int| 0 <= k <= events.len() implies {
        let w = #[trigger] list_run(v, events.take(k));
        1 <= w.pos <= v.total && w.total == v.total
    } by {
        lemma_list_run_in_range(v, events.take(k));
    }
}

proof fn lemma_list_run_in_range(v: ListView, events: Seq<Event>)
    requires
        1 <= v.pos <= v.total,
    ensures
        1 <= list_run(v, events).pos <= v.total,
        list_run(v, events).total == v.total,
    decreases events.len(),
{
    if events.len() > 0 {
        lemma_list_run_in_range(list_next(v, events[0]).0, events.drop_first());
    }
}

} // verus!
