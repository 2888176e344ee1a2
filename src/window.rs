use vstd::prelude::*;
use vstd::string::StringExecFns;
use crate::line::LinearDisassemblyLine;
use crate::lines::LinearDisassemblyLines;

verus! {

/// Which side of a cursor a window of lines is fetched from.
#[derive(Clone, Copy, Debug, PartialEq, Eq, Structural)]
pub enum WindowDirection {
    /// The lines strictly before the cursor's position.
    Before,
    /// The lines at the cursor's position or after it.
    After,
}

/// What the caller does next on the cursor for a fetch in progress.
#[derive(Clone, Copy, Debug, PartialEq, Eq, Structural)]
pub enum FetchAction {
    /// Step the cursor back one element and report whether it moved.
    StepPrevious,
    /// Step the cursor forward one element and report whether it moved.
    StepNext,
    /// Materialize the lines at the cursor and hand them over.
    ReadLines,
    /// The window is complete.
    Done,
}

/// The decisions of fetching one window of lines next to a cursor. The
/// caller performs each action on the cursor and reports what came of it.
///
/// Going back, the cursor steps before it reads, so the window never holds
/// the lines at the starting position. Going forward, it reads before it
/// steps, so the window begins at the starting position and the cursor ends
/// past the lines handed out. Either way empty positions are skipped until
/// some lines come or the cursor can move no further.
pub struct LineWindowFetch<F> {
    direction: WindowDirection,
    action: FetchAction,
    result: Vec<LinearDisassemblyLine<F>>,
    offset: Ghost<int>,
    read_at: Ghost<int>,
}

impl<F> LineWindowFetch<F> {
    pub closed spec fn spec_direction(&self) -> WindowDirection {
        self.direction
    }

    pub closed spec fn spec_action(&self) -> FetchAction {
        self.action
    }

    /// The lines read last, which the window holds once it is done.
    pub closed spec fn lines_spec(&self) -> Seq<LinearDisassemblyLine<F>> {
        self.result@
    }

    /// How many elements the cursor has moved since the fetch began:
    /// negative going back, positive going forward.
    pub closed spec fn offset(&self) -> int {
        self.offset@
    }

    /// The offset at which the lines held were read.
    pub closed spec fn read_offset(&self) -> int {
        self.read_at@
    }

    pub closed spec fn wf(&self) -> bool {
        match self.direction {
            WindowDirection::Before => {
                &&& self.action != FetchAction::StepNext
                &&& self.offset@ <= 0
                &&& self.action == FetchAction::ReadLines ==> self.offset@ < 0
                &&& self.action == FetchAction::StepPrevious ==> self.result@.len() == 0
                &&& self.result@.len() > 0 ==> self.read_at@ < 0 && self.read_at@ == self.offset@
            },
            WindowDirection::After => {
                &&& self.action != FetchAction::StepPrevious
                &&& self.offset@ >= 0
                &&& self.result@.len() > 0 ==> 0 <= self.read_at@ <= self.offset@
            },
        }
    }

    /// A fetch in `direction`, with no lines yet.
    pub fn new(direction: WindowDirection) -> (r: LineWindowFetch<F>)
        ensures
            r.wf(),
            r.spec_direction() == direction,
            r.offset() == 0,
            r.lines_spec().len() == 0,
            r.spec_action() == match direction {
                WindowDirection::Before => FetchAction::StepPrevious,
                WindowDirection::After => FetchAction::ReadLines,
            },
    {
        let action = match direction {
            WindowDirection::Before => FetchAction::StepPrevious,
            WindowDirection::After => FetchAction::ReadLines,
        };
        LineWindowFetch {
            direction,
            action,
            result: Vec::new(),
            offset: Ghost(0),
            read_at: Ghost(0),
        }
    }

    pub fn direction(&self) -> (r: WindowDirection)
        ensures
            r == self.spec_direction(),
    {
        self.direction
    }

    pub fn action(&self) -> (r: FetchAction)
        ensures
            r == self.spec_action(),
    {
        self.action
    }

    /// Takes the result of the step that was asked for.
    pub fn on_step(&mut self, moved: bool)
        requires
            old(self).wf(),
            old(self).spec_action() == FetchAction::StepPrevious || old(self).spec_action()
                == FetchAction::StepNext,
        ensures
            final(self).wf(),
            final(self).spec_direction() == old(self).spec_direction(),
            final(self).lines_spec() == old(self).lines_spec(),
            final(self).read_offset() == old(self).read_offset(),
            !moved ==> final(self).spec_action() == FetchAction::Done && final(self).offset()
                == old(self).offset(),
            moved && old(self).spec_action() == FetchAction::StepPrevious ==> final(self).offset()
                == old(self).offset() - 1 && final(self).spec_action() == FetchAction::ReadLines,
            moved && old(self).spec_action() == FetchAction::StepNext ==> final(self).offset()
                == old(self).offset() + 1 && final(self).spec_action() == if old(
                self,
            ).lines_spec().len() > 0 {
                FetchAction::Done
            } else {
                FetchAction::ReadLines
            },
    {
        if !moved {
            self.action = FetchAction::Done;
        } else {
            match self.action {
                FetchAction::StepPrevious => {
                    self.offset = Ghost(self.offset@ - 1);
                    self.action = FetchAction::ReadLines;
                },
                _ => {
                    self.offset = Ghost(self.offset@ + 1);
                    if self.result.len() > 0 {
                        self.action = FetchAction::Done;
                    } else {
                        self.action = FetchAction::ReadLines;
                    }
                },
            }
        }
    }

    /// Takes the lines materialized at the cursor's current position.
    pub fn on_lines(&mut self, lines: Vec<LinearDisassemblyLine<F>>)
        requires
            old(self).wf(),
            old(self).spec_action() == FetchAction::ReadLines,
        ensures
            final(self).wf(),
            final(self).spec_direction() == old(self).spec_direction(),
            final(self).lines_spec() == lines@,
            final(self).offset() == old(self).offset(),
            final(self).read_offset() == old(self).offset(),
            final(self).spec_action() == match old(self).spec_direction() {
                WindowDirection::Before => if lines@.len() > 0 {
                    FetchAction::Done
                } else {
                    FetchAction::StepPrevious
                },
                WindowDirection::After => FetchAction::StepNext,
            },
    {
        let found = lines.len() > 0;
        self.result = lines;
        self.read_at = Ghost(self.offset@);
        match self.direction {
            WindowDirection::Before => {
                if found {
                    self.action = FetchAction::Done;
                } else {
                    self.action = FetchAction::StepPrevious;
                }
            },
            WindowDirection::After => {
                self.action = FetchAction::StepNext;
            },
        }
    }

    /// The lines of the finished window, as a one-shot sequence.
    pub fn finish(self) -> (r: LinearDisassemblyLines<F>)
        requires
            self.wf(),
            self.spec_action() == FetchAction::Done,
        ensures
            r.wf(),
            r.lines_spec() == self.lines_spec(),
            r.remaining() == self.lines_spec(),
    {
        LinearDisassemblyLines::new(self.result)
    }

    /// A backward fetch reads only strictly before where it began, and the
    /// lines it holds come from there.
    pub proof fn lemma_before_reads_strictly_before(&self)
        requires
            self.wf(),
            self.spec_direction() == WindowDirection::Before,
        ensures
            self.offset() <= 0,
            self.spec_action() == FetchAction::ReadLines ==> self.offset() < 0,
            self.lines_spec().len() > 0 ==> self.read_offset() < 0,
    {
    }

    /// A forward fetch reads only at or after where it began, and the lines
    /// it holds come from there.
    pub proof fn lemma_after_reads_at_or_after(&self)
        requires
            self.wf(),
            self.spec_direction() == WindowDirection::After,
        ensures
            self.offset() >= 0,
            self.spec_action() == FetchAction::ReadLines ==> self.offset() >= 0,
            self.lines_spec().len() > 0 ==> self.read_offset() >= 0,
    {
    }
}

/// For a backward and a forward fetch begun at the same cursor position (one
/// on a duplicate of the cursor), the backward window is read strictly before
/// that position and the forward window at or after it, so no position is
/// read by both.
pub proof fn lemma_windows_do_not_overlap<F>(before: &LineWindowFetch<F>, after: &LineWindowFetch<F>)
    requires
        before.wf(),
        after.wf(),
        before.spec_direction() == WindowDirection::Before,
        after.spec_direction() == WindowDirection::After,
        before.lines_spec().len() > 0,
        after.lines_spec().len() > 0,
    ensures
        before.read_offset() < 0 <= after.read_offset(),
        before.read_offset() != after.read_offset(),
{
}

/// The text of a run of lines: each line's text followed by a newline.
pub open spec fn render_lines<F>(lines: Seq<LinearDisassemblyLine<F>>) -> Seq<char>
    decreases lines.len(),
{
    if lines.len() == 0 {
        Seq::empty()
    } else {
        render_lines(lines.drop_last()) + lines.last().rendered() + seq!['\n']
    }
}

/// The text of a window: each line rendered, followed by a newline.
pub fn window_text<F>(lines: &Vec<LinearDisassemblyLine<F>>) -> (r: String)
    ensures
        r@ == render_lines(lines@),
{
    let mut out = String::new();
    let mut i: usize = 0;
    while i < lines.len()
        invariant
            i <= lines@.len(),
            out@ == render_lines(lines@.subrange(0, i as int)),
        decreases lines@.len() - i,
    {
        let ghost prefix = lines@.subrange(0, i as int + 1);
        assert(prefix.drop_last() == lines@.subrange(0, i as int));
        let text = lines[i].to_text();
        out.append(text.as_str());
        proof {
            reveal_strlit("\n");
        }
        out.append("\n");
        i = i + 1;
    }
    assert(lines@.subrange(0, i as int) == lines@);
    out
}

/// The text of two runs of lines one after the other is the text of the
/// first followed by the text of the second.
pub proof fn lemma_render_lines_concat<F>(a: Seq<LinearDisassemblyLine<F>>, b: Seq<LinearDisassemblyLine<F>>)
    ensures
        render_lines(a + b) == render_lines(a) + render_lines(b),
    decreases b.len(),
{
    if b.len() == 0 {
        assert(a + b == a);
        assert(render_lines(b) == Seq::<char>::empty());
        assert(render_lines(a) + render_lines(b) == render_lines(a));
    } else {
        lemma_render_lines_concat(a, b.drop_last());
        assert((a + b).drop_last() == a + b.drop_last());
        assert((a + b).last() == b.last());
        assert(render_lines(a + b) == render_lines(a + b.drop_last()) + b.last().rendered()
            + seq!['\n']);
        assert(render_lines(a) + render_lines(b) == render_lines(a) + (render_lines(b.drop_last())
            + b.last().rendered() + seq!['\n']));
        assert(render_lines(a) + render_lines(b) =~= render_lines(a) + render_lines(b.drop_last())
            + b.last().rendered() + seq!['\n']);
    }
}

} // verus!
