use vstd::prelude::*;
use std::collections::VecDeque;
use crate::line::LinearDisassemblyLine;

verus! {

/// A finite, one-shot, forward sequence of the lines of one materialized
/// window. Its length is fixed when it is made; past the end it keeps
/// answering `None`. It owns the lines it has not handed out yet.
pub struct LinearDisassemblyLines<F> {
    rest: VecDeque<LinearDisassemblyLine<F>>,
    total: usize,
    all: Ghost<Seq<LinearDisassemblyLine<F>>>,
}

impl<F> LinearDisassemblyLines<F> {
    /// Every line of the window, in order, whether handed out or not.
    pub closed spec fn lines_spec(&self) -> Seq<LinearDisassemblyLine<F>> {
        self.all@
    }

    /// The lines not handed out yet, in order.
    pub closed spec fn remaining(&self) -> Seq<LinearDisassemblyLine<F>> {
        self.rest@
    }

    /// How many lines have been handed out.
    pub open spec fn taken(&self) -> int {
        self.lines_spec().len() - self.remaining().len()
    }

    pub closed spec fn wf(&self) -> bool {
        &&& self.total == self.all@.len()
        &&& self.rest@.len() <= self.all@.len()
        &&& self.rest@ == self.all@.subrange(self.all@.len() - self.rest@.len(), self.all@.len() as int)
    }

    /// A sequence that hands out `lines` in order.
    pub fn new(lines: Vec<LinearDisassemblyLine<F>>) -> (r: LinearDisassemblyLines<F>)
        ensures
            r.wf(),
            r.lines_spec() == lines@,
            r.remaining() == lines@,
    {
        let ghost orig = lines@;
        let mut lines = lines;
        let total = lines.len();
        let mut rest: VecDeque<LinearDisassemblyLine<F>> = VecDeque::new();
        while lines.len() > 0
            invariant
                lines@.len() <= orig.len(),
                lines@ == orig.subrange(0, lines@.len() as int),
                rest@ == orig.subrange(lines@.len() as int, orig.len() as int),
            decreases lines@.len(),
        {
            let ghost n = lines@.len();
            let line = lines.pop().unwrap();
            rest.push_front(line);
            assert(rest@ == orig.subrange(n - 1, orig.len() as int));
        }
        assert(rest@ == orig);
        LinearDisassemblyLines { rest, total, all: Ghost(orig) }
    }

    /// The number of lines of the window, fixed when it was made.
    pub fn len(&self) -> (r: usize)
        requires
            self.wf(),
        ensures
            r == self.lines_spec().len(),
    {
        self.total
    }

    pub fn is_empty(&self) -> (r: bool)
        requires
            self.wf(),
        ensures
            r == (self.lines_spec().len() == 0),
    {
        self.total == 0
    }

    /// The number of lines not handed out yet.
    pub fn remaining_len(&self) -> (r: usize)
        requires
            self.wf(),
        ensures
            r == self.remaining().len(),
    {
        self.rest.len()
    }

    /// Hands out the next line, or `None` once every line was handed out.
    pub fn next(&mut self) -> (r: Option<LinearDisassemblyLine<F>>)
        requires
            old(self).wf(),
        ensures
            final(self).wf(),
            final(self).lines_spec() == old(self).lines_spec(),
            old(self).remaining().len() == 0 ==> r is None && final(self).remaining() == old(
                self,
            ).remaining(),
            old(self).remaining().len() > 0 ==> r == Some(old(self).remaining()[0])
                && final(self).remaining() == old(self).remaining().drop_first(),
            r is Some ==> r == Some(old(self).lines_spec()[old(self).taken()]),
    {
        let r = self.rest.pop_front();
        proof {
            let all = self.all@;
            let n = old(self).rest@.len();
            if n > 0 {
                assert(self.rest@ =~= all.subrange(all.len() - (n - 1), all.len() as int));
            }
        }
        r
    }

    /// The window of `self` followed by the window of `after`: document
    /// order, whatever order they were fetched in.
    pub fn chain(self, after: LinearDisassemblyLines<F>) -> (r: LinearDisassemblyLines<F>)
        requires
            self.wf(),
            after.wf(),
            self.remaining().len() + after.remaining().len() <= usize::MAX,
        ensures
            r.wf(),
            r.lines_spec() == self.remaining() + after.remaining(),
            r.remaining() == self.remaining() + after.remaining(),
    {
        let mut rest = self.rest;
        let mut tail = after.rest;
        rest.append(&mut tail);
        let total = rest.len();
        let ghost all = rest@;
        assert(all.subrange(0, all.len() as int) =~= all);
        LinearDisassemblyLines { rest, total, all: Ghost(all) }
    }

    /// Hands out every remaining line at once, in order.
    pub fn into_vec(self) -> (r: Vec<LinearDisassemblyLine<F>>)
        requires
            self.wf(),
        ensures
            r@ == self.remaining(),
    {
        let mut rest = self.rest;
        let ghost orig = rest@;
        let mut out: Vec<LinearDisassemblyLine<F>> = Vec::new();
        while rest.len() > 0
            invariant
                out@.len() + rest@.len() == orig.len(),
                out@ + rest@ == orig,
            decreases rest@.len(),
        {
            let ghost before = rest@;
            let line = rest.pop_front().unwrap();
            assert(before == seq![line] + rest@);
            out.push(line);
            assert(out@ + rest@ == orig) by {
                assert(out@ + rest@ =~= (out@.drop_last() + seq![line]) + rest@);
            }
        }
        assert(out@ + rest@ =~= out@);
        out
    }
}

} // verus!
