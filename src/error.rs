use vstd::prelude::*;

verus! {

/// The errors that context operations report. Variants that carry an `i32`
/// hold the native EGL error code that the backend reported.
#[derive(Debug, Clone, Copy, PartialEq, Eq, Structural)]
pub enum Error {
    /// The requested API flavor is not supported by this backend.
    UnsupportedFlavor,
    /// Configuration selection failed in the backend.
    PixelFormatSelectionFailed(i32),
    /// Configuration selection succeeded but matched nothing.
    NoPixelFormatFound,
    /// The backend failed to create the native context.
    ContextCreationFailed(i32),
    /// The backend failed to make the context current.
    MakeCurrentFailed(i32),
    /// The context renders to a target that this library does not own.
    ExternalRenderTarget,
    /// A GL entry point could not be resolved.
    GLFunctionNotFound,
    /// No context is current on the calling thread.
    NoCurrentContext,
}

} // verus!
