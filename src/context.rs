use vstd::prelude::*;

use crate::attributes::{ContextAttributeFlags, ContextAttributes, GLApi, GLFlavor, GLInfo, GLVersion};
use crate::error::Error;
use crate::surface::{ColorSurface, Surface, NO_SURFACE};

verus! {

/// The native handle that stands for "no context".
pub const NO_CONTEXT: usize = 0;

/// Channel size of each color channel in every configuration requested.
pub const COLOR_CHANNEL_SIZE: i32 = 8;

/// Alpha channel size when alpha is requested.
pub const ALPHA_SIZE: i32 = 8;

/// Depth buffer size when depth is requested.
pub const DEPTH_SIZE: i32 = 24;

/// Stencil buffer size when stencil is requested.
pub const STENCIL_SIZE: i32 = 8;

/// The native context handle a `Context` holds, by ownership.
///
/// A handle equal to `NO_CONTEXT` means the context has been destroyed.
#[derive(Debug, Clone, Copy, PartialEq, Eq, Structural)]
pub enum NativeContext {
    /// Created by this library, which must release it.
    Owned { egl_context: usize },
    /// Created by the host; this library never releases it.
    Borrowed { egl_context: usize },
}

impl NativeContext {
    pub open spec fn handle(&self) -> usize {
        match self {
            NativeContext::Owned { egl_context } => *egl_context,
            NativeContext::Borrowed { egl_context } => *egl_context,
        }
    }

    pub open spec fn destroyed(&self) -> bool {
        self.handle() == NO_CONTEXT
    }

    pub open spec fn owned(&self) -> bool {
        self is Owned
    }

    pub fn egl_context(&self) -> (r: usize)
        ensures
            r == self.handle(),
    {
        match self {
            NativeContext::Owned { egl_context } => *egl_context,
            NativeContext::Borrowed { egl_context } => *egl_context,
        }
    }

    pub fn is_destroyed(&self) -> (r: bool)
        ensures
            r == self.destroyed(),
    {
        self.egl_context() == NO_CONTEXT
    }

    /// Marks the handle destroyed. Returns the native handle that the caller
    /// must deactivate and release, which only an owned handle has.
    pub fn destroy(&mut self) -> (r: Option<usize>)
        requires
            !old(self).destroyed(),
        ensures
            final(self).destroyed(),
            final(self).owned() == old(self).owned(),
            r == (if old(self).owned() {
                Some(old(self).handle())
            } else {
                None
            }),
    {
        match self {
            NativeContext::Owned { egl_context } => {
                let handle = *egl_context;
                *self = NativeContext::Owned { egl_context: NO_CONTEXT };
                Some(handle)
            },
            NativeContext::Borrowed { .. } => {
                *self = NativeContext::Borrowed { egl_context: NO_CONTEXT };
                None
            },
        }
    }
}

/// A rendering context: its native handle, its capability snapshot and the
/// target it renders to. It must be released with `Device::destroy_context`.
#[derive(Debug)]
pub struct Context {
    native_context: NativeContext,
    gl_info: GLInfo,
    color_surface: ColorSurface,
}

impl Context {
    pub closed spec fn native(&self) -> NativeContext {
        self.native_context
    }

    pub closed spec fn info(&self) -> GLInfo {
        self.gl_info
    }

    pub closed spec fn color(&self) -> ColorSurface {
        self.color_surface
    }

    pub open spec fn destroyed(&self) -> bool {
        self.native().destroyed()
    }

    /// Whether dropping the context in this state ends the process.
    pub open spec fn aborts_on_drop(&self, unwinding: bool) -> bool {
        self.native().owned() && !self.destroyed() && !unwinding
    }

    /// The context after `Device::destroy_context`.
    pub closed spec fn after_destroy(self) -> Context {
        if self.destroyed() {
            self
        } else {
            Context {
                native_context: match self.native_context {
                    NativeContext::Owned { .. } => NativeContext::Owned { egl_context: NO_CONTEXT },
                    NativeContext::Borrowed { .. } => NativeContext::Borrowed {
                        egl_context: NO_CONTEXT,
                    },
                },
                gl_info: self.gl_info,
                color_surface: match self.color_surface {
                    ColorSurface::Managed(_) => ColorSurface::Unattached,
                    other => other,
                },
            }
        }
    }

    /// What `Device::destroy_context` hands back for release.
    pub closed spec fn teardown(self) -> Teardown {
        if self.destroyed() {
            Teardown { surface: None, release_context: None }
        } else {
            Teardown {
                surface: self.color_surface.managed(),
                release_context: if self.native().owned() {
                    Some(self.native().handle())
                } else {
                    None
                },
            }
        }
    }

    /// The context after `Device::replace_context_color_surface` with `s`.
    pub closed spec fn after_replacement(self, s: Surface) -> Context {
        if self.color_surface is External {
            self
        } else {
            Context { color_surface: ColorSurface::Managed(s), ..self }
        }
    }

    /// What `Device::replace_context_color_surface` returns.
    pub open spec fn replacement_result(self) -> Result<Option<Surface>, Error> {
        if self.color() is External {
            Err(Error::ExternalRenderTarget)
        } else {
            Ok(self.color().managed())
        }
    }

    /// The native handle of the context, `NO_CONTEXT` once destroyed.
    pub fn egl_context(&self) -> (r: usize)
        ensures
            r == self.native().handle(),
    {
        self.native_context.egl_context()
    }

    pub fn is_destroyed(&self) -> (r: bool)
        ensures
            r == self.destroyed(),
    {
        self.native_context.is_destroyed()
    }

    /// Whether dropping this context now is a leak that must end the process:
    /// an owned context that was not destroyed, dropped while the thread is
    /// not already unwinding.
    pub fn must_abort_on_drop(&self, unwinding: bool) -> (r: bool)
        ensures
            r == self.aborts_on_drop(unwinding),
    {
        match self.native_context {
            NativeContext::Owned { .. } => !self.native_context.is_destroyed() && !unwinding,
            NativeContext::Borrowed { .. } => false,
        }
    }

    /// Records the version the driver reports at first activation.
    pub fn populate_gl_info(&mut self, reported: GLVersion)
        ensures
            final(self).native() == old(self).native(),
            final(self).color() == old(self).color(),
            old(self).info().is_populated() ==> final(self).info() == old(self).info(),
            !old(self).info().is_populated() ==> final(self).info() == (GLInfo {
                reported_version: Some(reported),
                ..old(self).info()
            }),
    {
        self.gl_info.populate(reported);
    }
}

/// The kind of Direct3D driver behind a device.
#[derive(Debug, Clone, Copy, PartialEq, Eq, Structural)]
pub enum DriverType {
    Unknown,
    Hardware,
    Warp,
}

/// The display connection and driver handles through which contexts are
/// created, activated and destroyed.
#[derive(Debug, Clone, Copy, PartialEq, Eq, Structural)]
pub struct Device {
    pub egl_display: usize,
    pub egl_device: usize,
    pub d3d11_device: usize,
    pub d3d_driver_type: DriverType,
}

/// The configuration to select for a new context, and the client version to
/// create it with.
#[derive(Debug, Clone, Copy, PartialEq, Eq, Structural)]
pub struct ConfigRequest {
    pub renderable_api: GLApi,
    pub red_size: i32,
    pub green_size: i32,
    pub blue_size: i32,
    pub alpha_size: i32,
    pub depth_size: i32,
    pub stencil_size: i32,
    pub client_version: u8,
}

/// The configuration that the attribute flags and version ask for.
pub open spec fn config_request_for(attributes: ContextAttributes) -> ConfigRequest {
    ConfigRequest {
        renderable_api: attributes.flavor.api,
        red_size: COLOR_CHANNEL_SIZE,
        green_size: COLOR_CHANNEL_SIZE,
        blue_size: COLOR_CHANNEL_SIZE,
        alpha_size: if attributes.flags.alpha { ALPHA_SIZE } else { 0 },
        depth_size: if attributes.flags.depth { DEPTH_SIZE } else { 0 },
        stencil_size: if attributes.flags.stencil { STENCIL_SIZE } else { 0 },
        client_version: attributes.flavor.version.major,
    }
}

/// What a thread binds when it makes a context current: the display, the
/// draw and read targets, and the context.
#[derive(Debug, Clone, Copy, PartialEq, Eq, Structural)]
pub struct ActivationTarget {
    pub egl_display: usize,
    pub draw_surface: usize,
    pub read_surface: usize,
    pub egl_context: usize,
}

/// What the caller must release natively after `Device::destroy_context`:
/// the managed surface, through the surface manager, then the owned native
/// context, deactivated first.
#[derive(Debug)]
pub struct Teardown {
    pub surface: Option<Surface>,
    pub release_context: Option<usize>,
}

/// What the host reports of the context current on the calling thread. A
/// handle of zero means there is none.
#[derive(Debug, Clone, Copy, PartialEq, Eq, Structural)]
pub struct CurrentContextQuery {
    pub egl_display: usize,
    pub egl_context: usize,
    pub egl_device: usize,
    pub d3d11_device: usize,
    pub client_version: u8,
    pub alpha_size: i32,
    pub depth_size: i32,
    pub stencil_size: i32,
}

/// The attributes that describe a context the host reports as current.
pub open spec fn adopted_attributes(query: CurrentContextQuery) -> ContextAttributes {
    ContextAttributes {
        flags: ContextAttributeFlags {
            alpha: query.alpha_size != 0,
            depth: query.depth_size != 0,
            stencil: query.stencil_size != 0,
        },
        flavor: GLFlavor {
            api: GLApi::GL,
            version: GLVersion { major: query.client_version, minor: 0 },
        },
    }
}

impl Device {
    /// A device over a display connection and the driver handles behind it.
    pub fn new(egl_display: usize, egl_device: usize, d3d11_device: usize, d3d_driver_type: DriverType)
        -> (r: Device)
        ensures
            r == (Device { egl_display, egl_device, d3d11_device, d3d_driver_type }),
    {
        Device { egl_display, egl_device, d3d11_device, d3d_driver_type }
    }

    /// Negotiates the configuration for a new context. An unsupported flavor
    /// is refused before anything native is asked for.
    pub fn context_config_request(&self, attributes: &ContextAttributes) -> (r: Result<
        ConfigRequest,
        Error,
    >)
        ensures
            attributes.flavor.api == GLApi::GLES ==> r == Err::<ConfigRequest, Error>(
                Error::UnsupportedFlavor,
            ),
            attributes.flavor.api == GLApi::GL ==> r == Ok::<ConfigRequest, Error>(
                config_request_for(*attributes),
            ),
    {
        if attributes.flavor.api == GLApi::GLES {
            return Err(Error::UnsupportedFlavor);
        }
        let flags = attributes.flags;
        let alpha_size: i32 = if flags.alpha { ALPHA_SIZE } else { 0 };
        let depth_size: i32 = if flags.depth { DEPTH_SIZE } else { 0 };
        let stencil_size: i32 = if flags.stencil { STENCIL_SIZE } else { 0 };
        Ok(ConfigRequest {
            renderable_api: attributes.flavor.api,
            red_size: COLOR_CHANNEL_SIZE,
            green_size: COLOR_CHANNEL_SIZE,
            blue_size: COLOR_CHANNEL_SIZE,
            alpha_size,
            depth_size,
            stencil_size,
            client_version: attributes.flavor.version.major,
        })
    }

    /// Completes creation once the native context exists and the provisional
    /// activation has been tried. On success the context has no color
    /// surface and a snapshot of `attributes`. On failure the native context
    /// comes back with the error, for the caller to release.
    pub fn create_context(
        &self,
        attributes: &ContextAttributes,
        native_context: NativeContext,
        activation: Result<(), Error>,
    ) -> (r: Result<Context, (Error, NativeContext)>)
        ensures
            attributes.flavor.api == GLApi::GLES ==> (r == Err::<Context, (Error, NativeContext)>(
                (Error::UnsupportedFlavor, native_context),
            )),
            attributes.flavor.api == GLApi::GL && activation is Err ==> (r == Err::<
                Context,
                (Error, NativeContext),
            >((activation->Err_0, native_context))),
            attributes.flavor.api == GLApi::GL && activation is Ok ==> (r matches Ok(c) && c.native()
                == native_context && c.info() == fresh_info(*attributes) && (c.color() is Unattached)),
            attributes.flavor.api == GLApi::GL && activation is Ok ==> (r == Ok::<
                Context,
                (Error, NativeContext),
            >(created_context(*attributes, native_context))),
    {
        if attributes.flavor.api == GLApi::GLES {
            return Err((Error::UnsupportedFlavor, native_context));
        }
        match activation {
            Err(e) => Err((e, native_context)),
            Ok(()) => Ok(
                Context {
                    native_context,
                    gl_info: GLInfo::new(attributes),
                    color_surface: ColorSurface::Unattached,
                },
            ),
        }
    }

    /// Adopts the context the host reports as current on the calling thread.
    /// The adopted handle is borrowed and its target external. With no
    /// current display or context the result is `NoCurrentContext`.
    pub fn from_current_context(query: CurrentContextQuery) -> (r: Result<(Device, Context), Error>)
        ensures
            (query.egl_display == 0 || query.egl_context == NO_CONTEXT) ==> r == Err::<
                (Device, Context),
                Error,
            >(Error::NoCurrentContext),
            (query.egl_display != 0 && query.egl_context != NO_CONTEXT) ==> (r matches Ok((d, c))
                && d == adopted_device(query) && c.native() == (NativeContext::Borrowed {
                egl_context: query.egl_context,
            }) && c.info() == fresh_info(adopted_attributes(query)) && (c.color() is External)),
            (query.egl_display != 0 && query.egl_context != NO_CONTEXT) ==> (r == Ok::<
                (Device, Context),
                Error,
            >((adopted_device(query), adopted_context(query)))),
    {
        if query.egl_display == 0 || query.egl_context == NO_CONTEXT {
            return Err(Error::NoCurrentContext);
        }
        let device = Device {
            egl_display: query.egl_display,
            egl_device: query.egl_device,
            d3d11_device: query.d3d11_device,
            d3d_driver_type: DriverType::Unknown,
        };
        let attributes = ContextAttributes {
            flags: ContextAttributeFlags::from_sizes(
                query.alpha_size,
                query.depth_size,
                query.stencil_size,
            ),
            flavor: GLFlavor { api: GLApi::GL, version: GLVersion::new(query.client_version, 0) },
        };
        let context = Context {
            native_context: NativeContext::Borrowed { egl_context: query.egl_context },
            gl_info: GLInfo::new(&attributes),
            color_surface: ColorSurface::External,
        };
        Ok((device, context))
    }

    /// Releases the context. The first call hands back what the caller must
    /// release natively and leaves the context destroyed; later calls do
    /// nothing and hand back nothing.
    pub fn destroy_context(&self, context: &mut Context) -> (r: Result<Teardown, Error>)
        ensures
            *final(context) == old(context).after_destroy(),
            r == Ok::<Teardown, Error>(old(context).teardown()),
            final(context).destroyed(),
            final(context).info() == old(context).info(),
            final(context).native().owned() == old(context).native().owned(),
            old(context).destroyed() ==> (*final(context) == *old(context) && (r matches Ok(t)
                && t.surface is None && (t.release_context is None))),
            !old(context).destroyed() ==> (r matches Ok(t) && (match old(context).color() {
                ColorSurface::Managed(s) => t.surface == Some(s) && (final(context).color() is Unattached),
                _ => t.surface is None && final(context).color() == old(context).color(),
            }) && t.release_context == (if old(context).native().owned() {
                Some(old(context).native().handle())
            } else {
                None
            })),
    {
        if context.native_context.is_destroyed() {
            return Ok(Teardown { surface: None, release_context: None });
        }
        let surface = if matches!(context.color_surface, ColorSurface::Managed(_)) {
            let mut taken = ColorSurface::Unattached;
            std::mem::swap(&mut context.color_surface, &mut taken);
            match taken {
                ColorSurface::Managed(s) => Some(s),
                _ => None,
            }
        } else {
            None
        };
        let release_context = context.native_context.destroy();
        Ok(Teardown { surface, release_context })
    }

    /// The capability snapshot of the context.
    pub fn context_gl_info<'c>(&self, context: &'c Context) -> (r: &'c GLInfo)
        ensures
            *r == context.info(),
    {
        &context.gl_info
    }

    /// The managed surface the context renders to, if it has one.
    pub fn context_color_surface<'c>(&self, context: &'c Context) -> (r: Option<&'c Surface>)
        ensures
            match context.color() {
                ColorSurface::Managed(s) => r == Some(&s),
                _ => r is None,
            },
    {
        match &context.color_surface {
            ColorSurface::Managed(surface) => Some(surface),
            _ => None,
        }
    }

    /// Attaches `new_color_surface` to the context and hands back the managed
    /// surface it replaces. A context with an external target is refused and
    /// left as it was. The caller activates the context again afterwards so
    /// that the new target takes effect.
    pub fn replace_context_color_surface(&self, context: &mut Context, new_color_surface: Surface)
        -> (r: Result<Option<Surface>, Error>)
        ensures
            *final(context) == old(context).after_replacement(new_color_surface),
            r == old(context).replacement_result(),
            old(context).color() is External ==> (r == Err::<Option<Surface>, Error>(
                Error::ExternalRenderTarget,
            ) && *final(context) == *old(context)),
            !(old(context).color() is External) ==> (final(context).native() == old(context).native() && final(context).info() == old(context).info() && final(context).color()
                == ColorSurface::Managed(new_color_surface) && r == Ok::<Option<Surface>, Error>(
                old(context).color().managed(),
            )),
    {
        if matches!(context.color_surface, ColorSurface::External) {
            return Err(Error::ExternalRenderTarget);
        }
        let mut previous = ColorSurface::Managed(new_color_surface);
        std::mem::swap(&mut context.color_surface, &mut previous);
        match previous {
            ColorSurface::Managed(old_surface) => Ok(Some(old_surface)),
            _ => Ok(None),
        }
    }

    /// The framebuffer object that renders to the context's surface: always
    /// the default framebuffer on this backend.
    pub fn context_surface_framebuffer_object(&self, context: &Context) -> (r: Result<u32, Error>)
        ensures
            r == Ok::<u32, Error>(0),
    {
        Ok(0)
    }

    /// What to bind to make `context` current: the context, with its managed
    /// surface, or no surface, as both draw and read target.
    pub fn context_activation_target(&self, context: &Context) -> (r: ActivationTarget)
        ensures
            r == (ActivationTarget {
                egl_display: self.egl_display,
                draw_surface: context.color().target(),
                read_surface: context.color().target(),
                egl_context: context.native().handle(),
            }),
    {
        let surface = match &context.color_surface {
            ColorSurface::Managed(s) => s.egl_surface(),
            _ => NO_SURFACE,
        };
        ActivationTarget {
            egl_display: self.egl_display,
            draw_surface: surface,
            read_surface: surface,
            egl_context: context.native_context.egl_context(),
        }
    }

    /// What to bind to leave the calling thread with no current context.
    pub fn release_target(&self) -> (r: ActivationTarget)
        ensures
            r == (ActivationTarget {
                egl_display: self.egl_display,
                draw_surface: NO_SURFACE,
                read_surface: NO_SURFACE,
                egl_context: NO_CONTEXT,
            }),
    {
        ActivationTarget {
            egl_display: self.egl_display,
            draw_surface: NO_SURFACE,
            read_surface: NO_SURFACE,
            egl_context: NO_CONTEXT,
        }
    }
}

/// The snapshot of a context made with `attributes`, before activation.
pub open spec fn fresh_info(attributes: ContextAttributes) -> GLInfo {
    GLInfo {
        attribute_flags: attributes.flags,
        flavor: attributes.flavor,
        reported_version: None,
    }
}

/// The context that creation yields from `native_context`: no color surface,
/// and a snapshot of `attributes`.
pub closed spec fn created_context(attributes: ContextAttributes, native_context: NativeContext) -> Context {
    Context {
        native_context,
        gl_info: fresh_info(attributes),
        color_surface: ColorSurface::Unattached,
    }
}

/// The context that adopting the reported context yields: a borrowed handle
/// rendering to an external target.
pub closed spec fn adopted_context(query: CurrentContextQuery) -> Context {
    Context {
        native_context: NativeContext::Borrowed { egl_context: query.egl_context },
        gl_info: fresh_info(adopted_attributes(query)),
        color_surface: ColorSurface::External,
    }
}

/// The device that adopting the reported context reconstructs.
pub open spec fn adopted_device(query: CurrentContextQuery) -> Device {
    Device {
        egl_display: query.egl_display,
        egl_device: query.egl_device,
        d3d11_device: query.d3d11_device,
        d3d_driver_type: DriverType::Unknown,
    }
}

/// Turns the outcome of configuration selection into the chosen configuration.
pub fn check_config_selection(succeeded: bool, native_error: i32, config_count: i32, config: usize)
    -> (r: Result<usize, Error>)
    ensures
        !succeeded ==> r == Err::<usize, Error>(Error::PixelFormatSelectionFailed(native_error)),
        succeeded && (config_count == 0 || config == 0) ==> r == Err::<usize, Error>(
            Error::NoPixelFormatFound,
        ),
        succeeded && config_count != 0 && config != 0 ==> r == Ok::<usize, Error>(config),
{
    if !succeeded {
        return Err(Error::PixelFormatSelectionFailed(native_error));
    }
    if config_count == 0 || config == 0 {
        return Err(Error::NoPixelFormatFound);
    }
    Ok(config)
}

/// Turns the outcome of native context creation into an owned handle.
pub fn check_context_creation(egl_context: usize, native_error: i32) -> (r: Result<
    NativeContext,
    Error,
>)
    ensures
        egl_context == NO_CONTEXT ==> r == Err::<NativeContext, Error>(
            Error::ContextCreationFailed(native_error),
        ),
        egl_context != NO_CONTEXT ==> r == Ok::<NativeContext, Error>(
            NativeContext::Owned { egl_context },
        ),
{
    if egl_context == NO_CONTEXT {
        Err(Error::ContextCreationFailed(native_error))
    } else {
        Ok(NativeContext::Owned { egl_context })
    }
}

/// Turns the outcome of a native make-current call into a result.
pub fn check_activation(succeeded: bool, native_error: i32) -> (r: Result<(), Error>)
    ensures
        succeeded ==> r == Ok::<(), Error>(()),
        !succeeded ==> r == Err::<(), Error>(Error::MakeCurrentFailed(native_error)),
{
    if succeeded {
        Ok(())
    } else {
        Err(Error::MakeCurrentFailed(native_error))
    }
}

/// Turns a resolved GL entry point into a result; zero means not found.
pub fn check_proc_address(address: usize) -> (r: Result<usize, Error>)
    ensures
        address == 0 ==> r == Err::<usize, Error>(Error::GLFunctionNotFound),
        address != 0 ==> r == Ok::<usize, Error>(address),
{
    if address == 0 {
        Err(Error::GLFunctionNotFound)
    } else {
        Ok(address)
    }
}

/// Every requested buffer is reported by the capability snapshot exactly when
/// its flag was set, and asked of the configuration with a non-zero size
/// exactly then. An adopted context reports a buffer exactly when the
/// current configuration has one.
pub proof fn lemma_info_reflects_flags(
    attributes: ContextAttributes,
    native_context: NativeContext,
    query: CurrentContextQuery,
)
    ensures
        created_context(attributes, native_context).info().attribute_flags == attributes.flags,
        (config_request_for(attributes).alpha_size != 0) == attributes.flags.alpha,
        (config_request_for(attributes).depth_size != 0) == attributes.flags.depth,
        (config_request_for(attributes).stencil_size != 0) == attributes.flags.stencil,
        adopted_context(query).info().attribute_flags.alpha == (query.alpha_size != 0),
        adopted_context(query).info().attribute_flags.depth == (query.depth_size != 0),
        adopted_context(query).info().attribute_flags.stencil == (query.stencil_size != 0),
{
}

/// Destroying a context a second time changes nothing and hands back nothing
/// to release.
pub proof fn lemma_destroy_is_idempotent(c: Context)
    ensures
        c.after_destroy().destroyed(),
        c.after_destroy().after_destroy() == c.after_destroy(),
        c.after_destroy().teardown() == (Teardown { surface: None, release_context: None }),
{
}

/// An adopted context renders to an external target: every replacement of
/// its color surface fails with `ExternalRenderTarget`, whatever the new
/// surface, and leaves the context as it was.
pub proof fn lemma_adopted_context_refuses_replacement(query: CurrentContextQuery, s: Surface)
    ensures
        adopted_context(query).replacement_result() == Err::<Option<Surface>, Error>(
            Error::ExternalRenderTarget,
        ),
        adopted_context(query).after_replacement(s) == adopted_context(query),
{
}

/// Replacing a managed target hands the previous surface back once: after
/// the replacement the context holds the new surface, so the next
/// replacement hands back that one and not the previous again.
pub proof fn lemma_replaced_surface_returned_once(c: Context, s1: Surface, s2: Surface)
    requires
        !(c.color() is External),
    ensures
        c.replacement_result() == Ok::<Option<Surface>, Error>(c.color().managed()),
        c.after_replacement(s1).color() == ColorSurface::Managed(s1),
        c.after_replacement(s1).replacement_result() == Ok::<Option<Surface>, Error>(Some(s1)),
        c.after_replacement(s1).after_replacement(s2).color() == ColorSurface::Managed(s2),
{
}

/// Dropping a destroyed context, or a borrowed one, never ends the process;
/// dropping an owned, live context does, unless the thread is unwinding.
pub proof fn lemma_drop_aborts_only_on_leak(c: Context, unwinding: bool)
    ensures
        !c.after_destroy().aborts_on_drop(unwinding),
        c.native() is Borrowed ==> !c.aborts_on_drop(unwinding),
        c.native() is Owned && !c.destroyed() && !unwinding ==> c.aborts_on_drop(unwinding),
        unwinding ==> !c.aborts_on_drop(unwinding),
{
}

} // verus!
