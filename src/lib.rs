//! Safe, verified core of a linear-view binding: line records and their
//! rendering, the one-shot sequence that hands out a materialized window of
//! lines, cursor states and comparison results, rendering modes, and the
//! protocol that fetches the lines before and after a cursor.

pub mod cursor;
pub mod line;
pub mod lines;
pub mod render_mode;
pub mod window;

pub use cursor::{
    classify_step, equal_from_compare, ordering_from_compare, CursorState, StepOutcome,
};
pub use line::{InstructionTextToken, LinearDisassemblyLine, LinearDisassemblyLineType};
pub use lines::LinearDisassemblyLines;
pub use render_mode::{RenderKind, RenderMode, ViewScope};
pub use window::{window_text, FetchAction, LineWindowFetch, WindowDirection};
