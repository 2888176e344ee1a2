use vstd::prelude::*;

verus! {

/// Which representation a linear view renders.
#[derive(Clone, Copy, Debug, PartialEq, Eq, Structural)]
pub enum RenderKind {
    DataOnly,
    Disassembly,
    LiftedIL,
    MediumLevelIL,
    MediumLevelILSSA,
    HighLevelIL,
    HighLevelILSSA,
    LanguageRepresentation,
}

/// Whether a linear view covers a whole binary or a single function.
#[derive(Clone, Copy, Debug, PartialEq, Eq, Structural)]
pub enum ViewScope {
    WholeBinary,
    SingleFunction,
}

/// Data regions exist only over a whole binary; every other representation
/// exists in both scopes.
pub open spec fn supported(kind: RenderKind, scope: ViewScope) -> bool {
    !(kind == RenderKind::DataOnly && scope == ViewScope::SingleFunction)
}

/// The rendering mode a view object is bound to for its whole life.
#[derive(Clone, Copy, Debug, PartialEq, Eq, Structural)]
pub struct RenderMode {
    kind: RenderKind,
    scope: ViewScope,
}

impl RenderMode {
    pub closed spec fn spec_kind(&self) -> RenderKind {
        self.kind
    }

    pub closed spec fn spec_scope(&self) -> ViewScope {
        self.scope
    }

    pub closed spec fn wf(&self) -> bool {
        supported(self.kind, self.scope)
    }

    /// The mode of `kind` in `scope`, or `None` where the engine offers no
    /// such view.
    pub fn new(kind: RenderKind, scope: ViewScope) -> (r: Option<RenderMode>)
        ensures
            r is Some <==> supported(kind, scope),
            r matches Some(m) ==> m.wf() && m.spec_kind() == kind && m.spec_scope() == scope,
    {
        match (kind, scope) {
            (RenderKind::DataOnly, ViewScope::SingleFunction) => None,
            _ => Some(RenderMode { kind, scope }),
        }
    }

    pub fn kind(&self) -> (r: RenderKind)
        ensures
            r == self.spec_kind(),
    {
        self.kind
    }

    pub fn scope(&self) -> (r: ViewScope)
        ensures
            r == self.spec_scope(),
    {
        self.scope
    }

    /// Cursors may be compared only where their views render the same way;
    /// the engine's answer for any other pair means nothing.
    pub fn comparable_with(&self, other: &RenderMode) -> (r: bool)
        ensures
            r == (self.spec_kind() == other.spec_kind() && self.spec_scope() == other.spec_scope()),
    {
        self.kind == other.kind && self.scope == other.scope
    }
}

} // verus!
