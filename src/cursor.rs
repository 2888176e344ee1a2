use vstd::prelude::*;
use std::cmp::Ordering;

verus! {

/// Where a cursor stands: before the first element, on an element, or after
/// the last one. A cursor is in exactly one of these states.
#[derive(Clone, Copy, Debug, PartialEq, Eq, Structural)]
pub enum CursorState {
    BeforeBegin,
    Positioned,
    AfterEnd,
}

pub open spec fn state_of(before_begin: bool, after_end: bool) -> CursorState {
    if before_begin {
        CursorState::BeforeBegin
    } else if after_end {
        CursorState::AfterEnd
    } else {
        CursorState::Positioned
    }
}

impl CursorState {
    /// The state from the engine's two boundary queries. A cursor that
    /// reports both boundaries (an empty sequence) counts as before the
    /// beginning.
    pub fn from_boundaries(before_begin: bool, after_end: bool) -> (r: CursorState)
        ensures
            r == state_of(before_begin, after_end),
            (r == CursorState::Positioned) == !(before_begin || after_end),
    {
        if before_begin {
            CursorState::BeforeBegin
        } else if after_end {
            CursorState::AfterEnd
        } else {
            CursorState::Positioned
        }
    }

    /// Whether the cursor stands on an element.
    pub fn is_valid(&self) -> (r: bool)
        ensures
            r == (*self == CursorState::Positioned),
    {
        match self {
            CursorState::Positioned => true,
            _ => false,
        }
    }
}

/// What one step of a cursor did.
#[derive(Clone, Copy, Debug, PartialEq, Eq, Structural)]
pub enum StepOutcome {
    /// The engine reported a step and the cursor stands on an element.
    Moved,
    /// The cursor went into a boundary state that it was not in before.
    EnteredSentinel,
    /// The cursor did not move: no step was reported, or it was at a
    /// boundary and is still there.
    Stayed,
}

pub open spec fn step_outcome(reported: bool, before: CursorState, after: CursorState) -> StepOutcome {
    if after != CursorState::Positioned && after != before {
        StepOutcome::EnteredSentinel
    } else if reported && after == CursorState::Positioned {
        StepOutcome::Moved
    } else {
        StepOutcome::Stayed
    }
}

/// Tells apart the results of a step that the engine reports with a single
/// boolean, from the boolean and the cursor's state before and after.
pub fn classify_step(reported: bool, before: CursorState, after: CursorState) -> (r: StepOutcome)
    ensures
        r == step_outcome(reported, before, after),
        r == StepOutcome::Moved ==> reported && after == CursorState::Positioned,
        r == StepOutcome::EnteredSentinel ==> after != CursorState::Positioned,
{
    if !after.is_valid() && after != before {
        StepOutcome::EnteredSentinel
    } else if reported && after.is_valid() {
        StepOutcome::Moved
    } else {
        StepOutcome::Stayed
    }
}

pub open spec fn ordering_of(c: i32) -> Ordering {
    if c < 0 {
        Ordering::Less
    } else if c > 0 {
        Ordering::Greater
    } else {
        Ordering::Equal
    }
}

/// The order of two cursors from the engine's three-way comparison:
/// negative, zero or positive.
pub fn ordering_from_compare(c: i32) -> (r: Ordering)
    ensures
        r == ordering_of(c),
        (r == Ordering::Less) == (c < 0),
        (r == Ordering::Equal) == (c == 0),
        (r == Ordering::Greater) == (c > 0),
{
    if c < 0 {
        Ordering::Less
    } else if c > 0 {
        Ordering::Greater
    } else {
        Ordering::Equal
    }
}

/// Two cursors are equal when the three-way comparison yields zero.
pub fn equal_from_compare(c: i32) -> (r: bool)
    ensures
        r == (c == 0),
        r == (ordering_of(c) == Ordering::Equal),
{
    c == 0
}

} // verus!
