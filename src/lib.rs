//! Lifecycle management for EGL rendering contexts (ANGLE on Direct3D 11).
//!
//! The library holds the decisions: attribute negotiation, ownership of native
//! context handles, the color-surface binding, activation targets, the
//! destruction state machine and the once-per-process function loading. The
//! native EGL and GL calls are made by the caller with the values it hands out.

mod attributes;
mod error;
mod surface;
mod context;
mod loading;
mod activation;

pub use attributes::{ContextAttributeFlags, ContextAttributes, GLApi, GLFlavor, GLInfo, GLVersion};
pub use error::Error;
pub use surface::{ColorSurface, Surface, NO_SURFACE};
pub use context::{
    check_activation, check_config_selection, check_context_creation, check_proc_address,
    ActivationTarget, ConfigRequest, Context, CurrentContextQuery, Device, DriverType,
    NativeContext, Teardown, ALPHA_SIZE, COLOR_CHANNEL_SIZE, DEPTH_SIZE, NO_CONTEXT, STENCIL_SIZE,
};
pub use loading::FunctionLoader;
pub use activation::ThreadBinding;
