pub mod geometry;
pub mod input;
pub mod io_scheduler;
pub mod render_state;

pub use input::pinch_handler::{PinchHandler, PinchPhase};
pub use input::{run_frame, UpdateState};
pub use io_scheduler::{IOScheduler, TouchPoint};
pub use render_state::RenderState;
