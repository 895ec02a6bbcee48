use angle_context::{
    check_activation, check_config_selection, check_context_creation, check_proc_address,
    ActivationTarget, ContextAttributeFlags, ContextAttributes, CurrentContextQuery, Device,
    DriverType, Error, FunctionLoader, GLApi, GLFlavor, GLVersion, NativeContext, Surface,
    ThreadBinding, NO_CONTEXT, NO_SURFACE,
};
use std::sync::{Arc, Mutex};

fn device() -> Device {
    Device::new(0x10, 0x20, 0x30, DriverType::Hardware)
}

fn attributes(api: GLApi, alpha: bool, depth: bool, stencil: bool) -> ContextAttributes {
    ContextAttributes {
        flags: ContextAttributeFlags { alpha, depth, stencil },
        flavor: GLFlavor { api, version: GLVersion::new(3, 0) },
    }
}

fn created(device: &Device, egl_context: usize) -> angle_context::Context {
    let attrs = attributes(GLApi::GL, true, true, false);
    let native = check_context_creation(egl_context, 0).unwrap();
    device.create_context(&attrs, native, Ok(())).unwrap()
}

fn adopted_query() -> CurrentContextQuery {
    CurrentContextQuery {
        egl_display: 0x10,
        egl_context: 0x77,
        egl_device: 0x20,
        d3d11_device: 0x30,
        client_version: 3,
        alpha_size: 8,
        depth_size: 0,
        stencil_size: 8,
    }
}

#[test]
fn config_request_follows_each_flag_combination() {
    let dev = device();
    for bits in 0u8..8 {
        let (alpha, depth, stencil) = (bits & 1 != 0, bits & 2 != 0, bits & 4 != 0);
        let attrs = attributes(GLApi::GL, alpha, depth, stencil);
        let req = dev.context_config_request(&attrs).unwrap();
        assert_eq!(req.renderable_api, GLApi::GL);
        assert_eq!((req.red_size, req.green_size, req.blue_size), (8, 8, 8));
        assert_eq!(req.alpha_size, if alpha { 8 } else { 0 });
        assert_eq!(req.depth_size, if depth { 24 } else { 0 });
        assert_eq!(req.stencil_size, if stencil { 8 } else { 0 });
        assert_eq!(req.client_version, 3);

        let native = check_context_creation(0x100 + bits as usize, 0).unwrap();
        let mut ctx = dev.create_context(&attrs, native, Ok(())).unwrap();
        let info = dev.context_gl_info(&ctx);
        assert_eq!(info.has_alpha(), alpha);
        assert_eq!(info.has_depth(), depth);
        assert_eq!(info.has_stencil(), stencil);
        dev.destroy_context(&mut ctx).unwrap();
    }
}

#[test]
fn gles_is_refused_before_any_native_call() {
    let dev = device();
    let attrs = attributes(GLApi::GLES, true, true, true);
    assert_eq!(dev.context_config_request(&attrs).unwrap_err(), Error::UnsupportedFlavor);
    let native = NativeContext::Owned { egl_context: 5 };
    let (err, back) = dev.create_context(&attrs, native, Ok(())).unwrap_err();
    assert_eq!(err, Error::UnsupportedFlavor);
    assert_eq!(back, native);
}

#[test]
fn config_selection_outcomes() {
    assert_eq!(check_config_selection(false, 0x3005, 1, 9), Err(Error::PixelFormatSelectionFailed(0x3005)));
    assert_eq!(check_config_selection(true, 0, 0, 9), Err(Error::NoPixelFormatFound));
    assert_eq!(check_config_selection(true, 0, 1, 0), Err(Error::NoPixelFormatFound));
    assert_eq!(check_config_selection(true, 0, 1, 9), Ok(9));
}

#[test]
fn context_creation_and_activation_outcomes() {
    assert_eq!(check_context_creation(NO_CONTEXT, 0x3009), Err(Error::ContextCreationFailed(0x3009)));
    assert_eq!(check_context_creation(4, 0), Ok(NativeContext::Owned { egl_context: 4 }));
    assert_eq!(check_activation(true, 0), Ok(()));
    assert_eq!(check_activation(false, 0x3002), Err(Error::MakeCurrentFailed(0x3002)));
    assert_eq!(check_proc_address(0), Err(Error::GLFunctionNotFound));
    assert_eq!(check_proc_address(0xabc), Ok(0xabc));
}

#[test]
fn failed_activation_hands_back_the_native_context() {
    let dev = device();
    let attrs = attributes(GLApi::GL, false, false, false);
    let native = NativeContext::Owned { egl_context: 12 };
    let (err, back) = dev
        .create_context(&attrs, native, Err(Error::MakeCurrentFailed(0x3006)))
        .unwrap_err();
    assert_eq!(err, Error::MakeCurrentFailed(0x3006));
    assert_eq!(back, native);
}

#[test]
fn created_context_starts_without_surface() {
    let dev = device();
    let mut ctx = created(&dev, 0x41);
    assert!(dev.context_color_surface(&ctx).is_none());
    assert_eq!(dev.context_surface_framebuffer_object(&ctx), Ok(0));
    assert_eq!(ctx.egl_context(), 0x41);
    assert_eq!(
        dev.context_activation_target(&ctx),
        ActivationTarget { egl_display: 0x10, draw_surface: NO_SURFACE, read_surface: NO_SURFACE, egl_context: 0x41 }
    );
    dev.destroy_context(&mut ctx).unwrap();
}

#[test]
fn destroying_twice_is_a_no_op_the_second_time() {
    let dev = device();
    let mut ctx = created(&dev, 0x42);
    assert_eq!(dev.replace_context_color_surface(&mut ctx, Surface::from_egl_surface(0x90)).unwrap().map(|s| s.egl_surface()), None);
    let first = dev.destroy_context(&mut ctx).unwrap();
    assert_eq!(first.surface.map(|s| s.egl_surface()), Some(0x90));
    assert_eq!(first.release_context, Some(0x42));
    assert!(ctx.is_destroyed());
    assert!(dev.context_color_surface(&ctx).is_none());
    let second = dev.destroy_context(&mut ctx).unwrap();
    assert!(second.surface.is_none());
    assert_eq!(second.release_context, None);
    assert!(ctx.is_destroyed());
}

#[test]
fn borrowed_context_is_never_released() {
    let (dev, mut ctx) = Device::from_current_context(adopted_query()).unwrap();
    let teardown = dev.destroy_context(&mut ctx).unwrap();
    assert!(teardown.surface.is_none());
    assert_eq!(teardown.release_context, None);
    assert!(ctx.is_destroyed());
}

#[test]
fn adopting_needs_a_current_context() {
    let mut query = adopted_query();
    query.egl_context = NO_CONTEXT;
    assert_eq!(Device::from_current_context(query).err(), Some(Error::NoCurrentContext));
    let mut query = adopted_query();
    query.egl_display = 0;
    assert_eq!(Device::from_current_context(query).err(), Some(Error::NoCurrentContext));
}

#[test]
fn adopted_context_reflects_current_configuration() {
    let (dev, ctx) = Device::from_current_context(adopted_query()).unwrap();
    assert_eq!(dev, Device::new(0x10, 0x20, 0x30, DriverType::Unknown));
    let info = dev.context_gl_info(&ctx);
    assert!(info.has_alpha());
    assert!(!info.has_depth());
    assert!(info.has_stencil());
    assert_eq!(info.flavor, GLFlavor { api: GLApi::GL, version: GLVersion::new(3, 0) });
    assert_eq!(ctx.egl_context(), 0x77);
}

#[test]
fn adopted_context_refuses_surface_replacement() {
    let (dev, mut ctx) = Device::from_current_context(adopted_query()).unwrap();
    for handle in [0usize, 1, 0x55] {
        let r = dev.replace_context_color_surface(&mut ctx, Surface::from_egl_surface(handle));
        assert_eq!(r.err(), Some(Error::ExternalRenderTarget));
        assert!(dev.context_color_surface(&ctx).is_none());
    }
    dev.destroy_context(&mut ctx).unwrap();
}

#[test]
fn replacement_returns_previous_surface_once() {
    let dev = device();
    let mut ctx = created(&dev, 0x43);
    let r1 = dev.replace_context_color_surface(&mut ctx, Surface::from_egl_surface(1)).unwrap();
    assert!(r1.is_none());
    let r2 = dev.replace_context_color_surface(&mut ctx, Surface::from_egl_surface(2)).unwrap();
    assert_eq!(r2.map(|s| s.egl_surface()), Some(1));
    let r3 = dev.replace_context_color_surface(&mut ctx, Surface::from_egl_surface(3)).unwrap();
    assert_eq!(r3.map(|s| s.egl_surface()), Some(2));
    assert_eq!(dev.context_color_surface(&ctx).map(|s| s.egl_surface()), Some(3));
    let target = dev.context_activation_target(&ctx);
    assert_eq!((target.draw_surface, target.read_surface, target.egl_context), (3, 3, 0x43));
    dev.destroy_context(&mut ctx).unwrap();
}

#[test]
fn drop_aborts_only_for_a_live_owned_context() {
    let dev = device();
    let mut ctx = created(&dev, 0x44);
    assert!(ctx.must_abort_on_drop(false));
    assert!(!ctx.must_abort_on_drop(true));
    dev.destroy_context(&mut ctx).unwrap();
    assert!(!ctx.must_abort_on_drop(false));

    let (_, borrowed) = Device::from_current_context(adopted_query()).unwrap();
    assert!(!borrowed.must_abort_on_drop(false));
}

#[test]
fn serialised_creations_load_functions_once() {
    let loader = Arc::new(Mutex::new(FunctionLoader::new()));
    let creators: Vec<Arc<Mutex<FunctionLoader>>> = (0..4).map(|_| Arc::clone(&loader)).collect();
    let mut loads = 0u32;
    for _ in 0..8 {
        for creator in &creators {
            let mut guard = creator.lock().unwrap();
            if guard.begin_load() {
                loads += 1;
            }
        }
    }
    assert_eq!(loads, 1);
    assert_eq!(loader.lock().unwrap().load_count(), 1);
    assert!(loader.lock().unwrap().is_loaded());
}

#[test]
fn fresh_loader_has_loaded_nothing() {
    let loader = FunctionLoader::new();
    assert_eq!(loader.load_count(), 0);
    assert!(!loader.is_loaded());
}

#[test]
fn later_activation_replaces_earlier_on_one_thread() {
    let dev = device();
    let mut a = created(&dev, 0xa);
    let mut b = created(&dev, 0xb);
    let mut binding = ThreadBinding::new();
    binding.activate(dev.context_activation_target(&a));
    binding.activate(dev.context_activation_target(&b));
    assert_eq!(binding.current_context(), Some(0xb));
    assert_eq!(binding.current, Some(dev.context_activation_target(&b)));
    binding.release();
    assert_eq!(binding.current_context(), None);
    let release = dev.release_target();
    assert_eq!((release.draw_surface, release.read_surface, release.egl_context), (NO_SURFACE, NO_SURFACE, NO_CONTEXT));
    dev.destroy_context(&mut a).unwrap();
    dev.destroy_context(&mut b).unwrap();
}

#[test]
fn activations_on_two_threads_are_independent() {
    let dev = device();
    let a = dev.context_activation_target(&created(&dev, 0xa));
    let b = dev.context_activation_target(&created(&dev, 0xb));
    let mut first = ThreadBinding::new();
    let mut second = ThreadBinding::new();
    first.activate(a);
    second.activate(b);
    assert_eq!(first.current_context(), Some(0xa));
    assert_eq!(second.current_context(), Some(0xb));
    second.release();
    assert_eq!(first.current_context(), Some(0xa));
    assert_eq!(second.current_context(), None);
}

#[test]
fn gl_info_is_populated_once() {
    let dev = device();
    let mut ctx = created(&dev, 0x45);
    assert_eq!(dev.context_gl_info(&ctx).reported_version, None);
    ctx.populate_gl_info(GLVersion::new(4, 5));
    ctx.populate_gl_info(GLVersion::new(2, 1));
    let info = dev.context_gl_info(&ctx);
    assert_eq!(info.reported_version, Some(GLVersion::new(4, 5)));
    assert!(info.has_alpha() && info.has_depth() && !info.has_stencil());
    dev.destroy_context(&mut ctx).unwrap();
}

#[test]
fn attribute_flags_from_channel_sizes() {
    let f = ContextAttributeFlags::from_sizes(0, 24, 0);
    assert_eq!(f, ContextAttributeFlags { alpha: false, depth: true, stencil: false });
    assert_eq!(ContextAttributeFlags::empty(), ContextAttributeFlags::from_sizes(0, 0, 0));
    assert_eq!(ContextAttributeFlags::all(), ContextAttributeFlags::from_sizes(8, 24, 8));
}
