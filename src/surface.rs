use vstd::prelude::*;

verus! {

/// The native handle that stands for "no surface".
pub const NO_SURFACE: usize = 0;

/// A renderable target, known to this library by its native EGL surface
/// handle. A `Surface` is neither `Clone` nor `Copy`: at most one owner holds
/// it, which is how a context is kept from handing the same surface out twice.
#[derive(Debug)]
pub struct Surface {
    pub egl_surface: usize,
}

impl Surface {
    /// Wraps a native surface made by the surface manager.
    pub fn from_egl_surface(egl_surface: usize) -> (r: Surface)
        ensures
            r.egl_surface == egl_surface,
    {
        Surface { egl_surface }
    }

    /// The native target that activation binds for this surface.
    pub fn egl_surface(&self) -> (r: usize)
        ensures
            r == self.egl_surface,
    {
        self.egl_surface
    }
}

/// The render target attached to a context.
#[derive(Debug)]
pub enum ColorSurface {
    /// No target is attached.
    Unattached,
    /// A target owned by this library.
    Managed(Surface),
    /// A target that the host created and keeps; it is opaque here and never
    /// replaced or released by this library.
    External,
}

impl ColorSurface {
    /// The native target that activation binds: the managed surface's handle,
    /// or no surface.
    pub open spec fn target(&self) -> usize {
        match self {
            ColorSurface::Managed(s) => s.egl_surface,
            _ => NO_SURFACE,
        }
    }

    /// The managed surface, if there is one.
    pub open spec fn managed(self) -> Option<Surface> {
        match self {
            ColorSurface::Managed(s) => Some(s),
            _ => None,
        }
    }
}

} // verus!
