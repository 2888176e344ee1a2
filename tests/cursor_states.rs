use linearview::{
    classify_step, equal_from_compare, ordering_from_compare, CursorState, RenderKind, RenderMode,
    StepOutcome, ViewScope,
};
use std::cmp::Ordering;
use CursorState::{AfterEnd, BeforeBegin, Positioned};

#[test]
fn state_from_boundaries() {
    assert_eq!(CursorState::from_boundaries(true, false), CursorState::BeforeBegin);
    assert_eq!(CursorState::from_boundaries(false, true), CursorState::AfterEnd);
    assert_eq!(CursorState::from_boundaries(false, false), CursorState::Positioned);
    assert_eq!(CursorState::from_boundaries(true, true), CursorState::BeforeBegin);
}

#[test]
fn valid_means_neither_boundary() {
    for bb in [false, true] {
        for ae in [false, true] {
            assert_eq!(CursorState::from_boundaries(bb, ae).is_valid(), !(bb || ae));
        }
    }
}

#[test]
fn step_outcomes_are_distinguished() {
    assert_eq!(classify_step(true, Positioned, Positioned), StepOutcome::Moved);
    assert_eq!(classify_step(true, BeforeBegin, Positioned), StepOutcome::Moved);
    assert_eq!(classify_step(false, Positioned, AfterEnd), StepOutcome::EnteredSentinel);
    assert_eq!(classify_step(true, Positioned, AfterEnd), StepOutcome::EnteredSentinel);
    assert_eq!(classify_step(false, Positioned, BeforeBegin), StepOutcome::EnteredSentinel);
    assert_eq!(classify_step(false, AfterEnd, AfterEnd), StepOutcome::Stayed);
    assert_eq!(classify_step(false, Positioned, Positioned), StepOutcome::Stayed);
    assert_eq!(classify_step(true, BeforeBegin, BeforeBegin), StepOutcome::Stayed);
}

#[test]
fn ordering_follows_sign_of_comparison() {
    assert_eq!(ordering_from_compare(-5), Ordering::Less);
    assert_eq!(ordering_from_compare(i32::MIN), Ordering::Less);
    assert_eq!(ordering_from_compare(0), Ordering::Equal);
    assert_eq!(ordering_from_compare(7), Ordering::Greater);
    assert_eq!(ordering_from_compare(i32::MAX), Ordering::Greater);
}

#[test]
fn equality_is_comparison_yielding_zero() {
    assert!(equal_from_compare(0));
    assert!(!equal_from_compare(1));
    assert!(!equal_from_compare(-1));
}

const KINDS: [RenderKind; 8] = [
    RenderKind::DataOnly,
    RenderKind::Disassembly,
    RenderKind::LiftedIL,
    RenderKind::MediumLevelIL,
    RenderKind::MediumLevelILSSA,
    RenderKind::HighLevelIL,
    RenderKind::HighLevelILSSA,
    RenderKind::LanguageRepresentation,
];

#[test]
fn every_mode_but_single_function_data_exists() {
    let mut count = 0;
    for kind in KINDS {
        for scope in [ViewScope::WholeBinary, ViewScope::SingleFunction] {
            let mode = RenderMode::new(kind, scope);
            if kind == RenderKind::DataOnly && scope == ViewScope::SingleFunction {
                assert!(mode.is_none());
            } else {
                let mode = mode.unwrap();
                assert_eq!(mode.kind(), kind);
                assert_eq!(mode.scope(), scope);
                count += 1;
            }
        }
    }
    assert_eq!(count, 15);
}

#[test]
fn only_cursors_of_the_same_mode_compare() {
    let hlil = RenderMode::new(RenderKind::HighLevelIL, ViewScope::WholeBinary).unwrap();
    let hlil2 = RenderMode::new(RenderKind::HighLevelIL, ViewScope::WholeBinary).unwrap();
    let hlil_fn = RenderMode::new(RenderKind::HighLevelIL, ViewScope::SingleFunction).unwrap();
    let mlil = RenderMode::new(RenderKind::MediumLevelIL, ViewScope::WholeBinary).unwrap();
    assert!(hlil.comparable_with(&hlil2));
    assert!(!hlil.comparable_with(&hlil_fn));
    assert!(!hlil.comparable_with(&mlil));
}
