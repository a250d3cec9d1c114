//! Render-side data of an Atari 800 display: the byte blocks that the ANTIC
//! line shader reads, the GTIA colour registers, the choice of which display
//! list lines become drawn quads, and the per-frame scan-line schedule that
//! decides when ANTIC fetches a mode line and when the CPU is interrupted, and
//! the instruction tracer.
pub mod frame;
pub mod mode_line;
pub mod render_resources;
pub mod trace;

pub use frame::{FrameState, Interrupt};
pub use mode_line::{create_mode_line, dlist_register_bytes, AnticLine, ModeLineDescr};
pub use render_resources::{player_size, Charset, GTIAColors, LineData};
pub use trace::{trace_instruction, Debugger, TraceAction};
