use vstd::prelude::*;
use vstd::string::{to_string_from_display_ensures, StringExecFns};

verus! {

/// The errors of the engine.
///
/// `E` is the error that the GPU driver reports when it cannot create a
/// surface (`wgpu::CreateSurfaceError` in the engine itself).
#[derive(Debug)]
pub enum PolyForgeError<E> {
    /// A surface was asked for while the controller holds no renderer.
    RendererNotInitialized,
    /// The driver refused to create a surface; its error is kept.
    SurfaceCreationFailed(E),
    /// Any other condition, described by its message.
    Other(String),
}

/// The text that describes a missing renderer.
pub open spec fn renderer_missing_text() -> Seq<char> {
    "Renderer is not initalized"@
}

/// What the description of a failed surface creation starts with.
pub open spec fn surface_failure_prefix() -> Seq<char> {
    "Failed to create a surface: "@
}

impl<E: std::fmt::Display> PolyForgeError<E> {
    /// A human-readable description of the error.
    ///
    /// A driver failure is described by a fixed prefix followed by the
    /// driver error's own text.
    pub fn message(&self) -> (r: String)
        ensures
            self is RendererNotInitialized ==> r@ == renderer_missing_text(),
            self is Other ==> r@ == self->Other_0@,
            self is SurfaceCreationFailed ==> exists|t: String|
                to_string_from_display_ensures::<E>(&self->SurfaceCreationFailed_0, t)
                    && r@ == surface_failure_prefix() + t@,
    {
        match self {
            PolyForgeError::RendererNotInitialized => {
                String::from_str("Renderer is not initalized")
            },
            PolyForgeError::SurfaceCreationFailed(err) => {
                let detail = err.to_string();
                let mut text = String::from_str("Failed to create a surface: ");
                text.append(detail.as_str());
                text
            },
            PolyForgeError::Other(msg) => msg.clone(),
        }
    }
}

} // verus!
