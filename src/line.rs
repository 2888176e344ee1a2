use vstd::prelude::*;
use vstd::string::StringExecFns;

verus! {

/// One printable unit of a line: its text and the engine's classification tag.
pub struct InstructionTextToken {
    pub text: String,
    pub token_type: u32,
}

impl InstructionTextToken {
    pub fn new(text: String, token_type: u32) -> (r: InstructionTextToken)
        ensures
            r.text@ == text@,
            r.token_type == token_type,
    {
        InstructionTextToken { text, token_type }
    }

    pub fn text(&self) -> (r: &str)
        ensures
            r@ == self.text@,
    {
        self.text.as_str()
    }
}

/// The text of a sequence of tokens: their texts in order, with no separator.
pub open spec fn render_tokens(tokens: Seq<InstructionTextToken>) -> Seq<char>
    decreases tokens.len(),
{
    if tokens.len() == 0 {
        Seq::empty()
    } else {
        render_tokens(tokens.drop_last()) + tokens.last().text@
    }
}

proof fn lemma_render_tokens_by_text(a: Seq<InstructionTextToken>, b: Seq<InstructionTextToken>)
    requires
        a.len() == b.len(),
        forall|i: int| 0 <= i < a.len() ==> #[trigger] a[i].text@ == b[i].text@,
    ensures
        render_tokens(a) == render_tokens(b),
    decreases a.len(),
{
    if a.len() > 0 {
        let (pa, pb) = (a.drop_last(), b.drop_last());
        assert forall|i: int| 0 <= i < pa.len() implies #[trigger] pa[i].text@ == pb[i].text@ by {
            assert(pa[i] == a[i] && pb[i] == b[i]);
        }
        lemma_render_tokens_by_text(pa, pb);
        assert(a.last().text@ == b[b.len() - 1].text@);
    }
}

/// The kind of a line in a linear view.
#[derive(Clone, Copy, Debug, PartialEq, Eq, Structural)]
pub enum LinearDisassemblyLineType {
    BlankLineType,
    BasicLineType,
    CodeDisassemblyLineType,
    DataVariableLineType,
    HexDumpLineType,
    FunctionHeaderLineType,
    FunctionHeaderStartLineType,
    FunctionHeaderEndLineType,
    FunctionContinuationLineType,
    LocalVariableLineType,
    LocalVariableListEndLineType,
    FunctionEndLineType,
    NoteStartLineType,
    NoteLineType,
    NoteEndLineType,
    SectionStartLineType,
    SectionEndLineType,
    SectionSeparatorLineType,
    NonContiguousSeparatorLineType,
    AnalysisWarningLineType,
}

/// One rendered line of a linear view. Everything it holds was copied out of
/// the engine's buffer when the line was produced, so it never points into
/// memory that the engine may release. `F` is the handle of the function
/// the line belongs to.
pub struct LinearDisassemblyLine<F> {
    t: LinearDisassemblyLineType,
    function: F,
    addr: u64,
    instr_idx: usize,
    tag_count: usize,
    tokens: Vec<InstructionTextToken>,
}

impl<F> LinearDisassemblyLine<F> {
    pub closed spec fn spec_line_type(&self) -> LinearDisassemblyLineType {
        self.t
    }

    pub closed spec fn spec_function(&self) -> F {
        self.function
    }

    pub closed spec fn spec_addr(&self) -> u64 {
        self.addr
    }

    pub closed spec fn spec_instr_idx(&self) -> usize {
        self.instr_idx
    }

    pub closed spec fn spec_tag_count(&self) -> usize {
        self.tag_count
    }

    pub closed spec fn spec_tokens(&self) -> Seq<InstructionTextToken> {
        self.tokens@
    }

    /// The line's text: its tokens' texts, in order.
    pub open spec fn rendered(&self) -> Seq<char> {
        render_tokens(self.spec_tokens())
    }

    pub fn new(
        t: LinearDisassemblyLineType,
        function: F,
        addr: u64,
        instr_idx: usize,
        tag_count: usize,
        tokens: Vec<InstructionTextToken>,
    ) -> (r: LinearDisassemblyLine<F>)
        ensures
            r.spec_line_type() == t,
            r.spec_function() == function,
            r.spec_addr() == addr,
            r.spec_instr_idx() == instr_idx,
            r.spec_tag_count() == tag_count,
            r.spec_tokens() == tokens@,
    {
        LinearDisassemblyLine { t, function, addr, instr_idx, tag_count, tokens }
    }

    pub fn addr(&self) -> (r: u64)
        ensures
            r == self.spec_addr(),
    {
        self.addr
    }

    pub fn instr_idx(&self) -> (r: usize)
        ensures
            r == self.spec_instr_idx(),
    {
        self.instr_idx
    }

    /// The number of tokens of the line.
    pub fn count(&self) -> (r: usize)
        ensures
            r == self.spec_tokens().len(),
    {
        self.tokens.len()
    }

    pub fn tag_count(&self) -> (r: usize)
        ensures
            r == self.spec_tag_count(),
    {
        self.tag_count
    }

    pub fn tokens(&self) -> (r: &Vec<InstructionTextToken>)
        ensures
            r@ == self.spec_tokens(),
    {
        &self.tokens
    }

    pub fn function(&self) -> (r: &F)
        ensures
            *r == self.spec_function(),
    {
        &self.function
    }

    pub fn line_type(&self) -> (r: LinearDisassemblyLineType)
        ensures
            r == self.spec_line_type(),
    {
        self.t
    }

    /// Renders the line: the concatenation of its tokens' texts, in token
    /// order, with no separator.
    pub fn to_text(&self) -> (r: String)
        ensures
            r@ == self.rendered(),
    {
        let mut out = String::new();
        let mut i: usize = 0;
        while i < self.tokens.len()
            invariant
                i <= self.tokens@.len(),
                out@ == render_tokens(self.tokens@.subrange(0, i as int)),
            decreases self.tokens@.len() - i,
        {
            let ghost prefix = self.tokens@.subrange(0, i as int + 1);
            assert(prefix.drop_last() == self.tokens@.subrange(0, i as int));
            out.append(self.tokens[i].text.as_str());
            i = i + 1;
        }
        assert(self.tokens@.subrange(0, i as int) == self.tokens@);
        out
    }
}

/// Rendering is determined by the tokens' texts alone: two lines whose
/// tokens carry the same texts in the same order render to the same text,
/// whatever else the lines or their tokens hold.
pub proof fn lemma_render_deterministic<F, G>(a: &LinearDisassemblyLine<F>, b: &LinearDisassemblyLine<G>)
    requires
        a.spec_tokens().len() == b.spec_tokens().len(),
        forall|i: int|
            0 <= i < a.spec_tokens().len() ==> #[trigger] a.spec_tokens()[i].text@
                == b.spec_tokens()[i].text@,
    ensures
        a.rendered() == b.rendered(),
{
    lemma_render_tokens_by_text(a.spec_tokens(), b.spec_tokens());
}

} // verus!
