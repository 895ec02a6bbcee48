use vstd::prelude::*;

verus! {

/// The family of GL API a context exposes.
#[derive(Debug, Clone, Copy, PartialEq, Eq, Structural)]
pub enum GLApi {
    /// Desktop OpenGL.
    GL,
    /// OpenGL ES.
    GLES,
}

/// A GL version, major and minor.
#[derive(Debug, Clone, Copy, PartialEq, Eq, Structural)]
pub struct GLVersion {
    pub major: u8,
    pub minor: u8,
}

impl GLVersion {
    pub fn new(major: u8, minor: u8) -> (r: GLVersion)
        ensures
            r.major == major,
            r.minor == minor,
    {
        GLVersion { major, minor }
    }
}

/// An API family together with its version.
#[derive(Debug, Clone, Copy, PartialEq, Eq, Structural)]
pub struct GLFlavor {
    pub api: GLApi,
    pub version: GLVersion,
}

/// The optional buffers requested for a context.
#[derive(Debug, Clone, Copy, PartialEq, Eq, Structural)]
pub struct ContextAttributeFlags {
    pub alpha: bool,
    pub depth: bool,
    pub stencil: bool,
}

impl ContextAttributeFlags {
    /// No optional buffer.
    pub fn empty() -> (r: ContextAttributeFlags)
        ensures
            !r.alpha && !r.depth && !r.stencil,
    {
        ContextAttributeFlags { alpha: false, depth: false, stencil: false }
    }

    /// Every optional buffer.
    pub fn all() -> (r: ContextAttributeFlags)
        ensures
            r.alpha && r.depth && r.stencil,
    {
        ContextAttributeFlags { alpha: true, depth: true, stencil: true }
    }

    /// The flags whose buffers have a non-zero channel size.
    pub fn from_sizes(alpha_size: i32, depth_size: i32, stencil_size: i32) -> (r:
        ContextAttributeFlags)
        ensures
            r.alpha == (alpha_size != 0),
            r.depth == (depth_size != 0),
            r.stencil == (stencil_size != 0),
    {
        ContextAttributeFlags {
            alpha: alpha_size != 0,
            depth: depth_size != 0,
            stencil: stencil_size != 0,
        }
    }
}

/// What a caller asks of a new context: its flavor and its optional buffers.
#[derive(Debug, Clone, Copy, PartialEq, Eq, Structural)]
pub struct ContextAttributes {
    pub flags: ContextAttributeFlags,
    pub flavor: GLFlavor,
}

/// The capability snapshot of a context. It records the attributes the
/// context was made with, and, from its first activation on, the version the
/// driver reports.
#[derive(Debug, Clone, Copy, PartialEq, Eq, Structural)]
pub struct GLInfo {
    pub attribute_flags: ContextAttributeFlags,
    pub flavor: GLFlavor,
    pub reported_version: Option<GLVersion>,
}

impl GLInfo {
    /// The snapshot of a context made with `attributes`, not yet populated.
    pub fn new(attributes: &ContextAttributes) -> (r: GLInfo)
        ensures
            r.attribute_flags == attributes.flags,
            r.flavor == attributes.flavor,
            r.reported_version is None,
    {
        GLInfo {
            attribute_flags: attributes.flags,
            flavor: attributes.flavor,
            reported_version: None,
        }
    }

    pub open spec fn is_populated(&self) -> bool {
        self.reported_version is Some
    }

    /// Records the version the driver reports. Only the first call has an
    /// effect: the snapshot is immutable once populated.
    pub fn populate(&mut self, reported: GLVersion)
        ensures
            final(self).attribute_flags == old(self).attribute_flags,
            final(self).flavor == old(self).flavor,
            old(self).is_populated() ==> *final(self) == *old(self),
            !old(self).is_populated() ==> final(self).reported_version == Some(reported),
    {
        if self.reported_version.is_none() {
            self.reported_version = Some(reported);
        }
    }

    pub fn has_alpha(&self) -> (r: bool)
        ensures
            r == self.attribute_flags.alpha,
    {
        self.attribute_flags.alpha
    }

    pub fn has_depth(&self) -> (r: bool)
        ensures
            r == self.attribute_flags.depth,
    {
        self.attribute_flags.depth
    }

    pub fn has_stencil(&self) -> (r: bool)
        ensures
            r == self.attribute_flags.stencil,
    {
        self.attribute_flags.stencil
    }
}

} // verus!
