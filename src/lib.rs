//! Bootstrap of a 3D engine: the application controller that owns the
//! platform window, the GPU renderer and the presentation surfaces made for
//! windows, with the lifecycle decisions stated and proved.

mod polyforge_errors;
mod renderer;
mod window;

pub use polyforge_errors::{renderer_missing_text, surface_failure_prefix, PolyForgeError};
pub use renderer::Renderer;
pub use window::{
    creation_result, lemma_resume_twice, lemma_successes_accumulate, resumed_window,
    surfaces_after, EventAction, PolyForge3D, WindowSignal, WINDOW_TITLE,
};
