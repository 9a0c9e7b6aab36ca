use egl_context::config::{Api, ConfigAttribs, ConfigBuilder, ConfigWrapper, SwapInterval};
use egl_context::context::{ContextBuilderWrapper, PixelFormat, Robustness};
use egl_context::egl::config::{Candidate, Config, NativeAttribs, Readback};
use egl_context::egl::context::Context as EglContext;
use egl_context::egl::display::{Display, Initialized, RawDisplay};
use egl_context::egl::guard::BindRequest;
use egl_context::egl::surface::{PhysicalSize, Surface};
use egl_context::egl::table::{Egl, ENTRY_POINTS};
use egl_context::error::{ErrorType, NativeCall, OsError};
use egl_context::ffi;
use egl_context::split_context::context_is_current::{
    ContextIsCurrentTrait, Currency, No as NotCurrent, Possibly, PossiblyAndSurfaceBound,
};
use egl_context::split_context::supports_pbuffers::{
    No as NoPBuffers, SupportsPBuffersTrait, Yes as PBuffers,
};
use egl_context::split_context::supports_surfaceless::{
    No as NoSurfaceless, SupportsSurfacelessTrait, Yes as Surfaceless,
};
use egl_context::split_context::supports_window_surfaces::{
    No as NoWindows, SupportsWindowSurfacesTrait, Yes as Windows,
};
use egl_context::split_context::surface_in_use::No as NotInUse;
use egl_context::split_context::{
    context_supports, ContextSupports, LighterContextBuilder, LighterContextBuilderTrait,
    LighterSurface, SplitContext,
};
use egl_context::surface::{PBuffer, Window};
use egl_context::windowed::{
    Context, ContextBuilder, NotCurrentContext, PossiblyCurrentContext, WindowedContext,
};
use std::sync::Arc;

type Full<IC> = SplitContext<IC, PBuffers, Windows, Surfaceless>;

fn open(version: (i32, i32), extensions: &str) -> Arc<Display> {
    let egl = Egl::from_addresses(vec![0x1000usize; ENTRY_POINTS]).unwrap();
    let acquiring = Display::new(None, &egl, &RawDisplay::Wayland { wl_display: 0x10 }).unwrap();
    let initializing = acquiring.acquired(0x7000, ffi::SUCCESS).unwrap();
    match initializing.initialized(Ok(version)).unwrap() {
        Initialized::Query(querying) => querying.queried(Some(extensions), ffi::SUCCESS).unwrap(),
        Initialized::Ready(display) => display,
    }
}

fn config(display: &Arc<Display>) -> (ConfigAttribs, Config) {
    let native = NativeAttribs {
        min_swap_interval: 0,
        max_swap_interval: 4,
        caveat: ffi::NONE,
        red_size: 8,
        green_size: 8,
        blue_size: 8,
        alpha_size: 0,
        depth_size: 16,
        stencil_size: 0,
        samples: 8,
    };
    let cb = ConfigBuilder {
        desired_swap_interval: Some(SwapInterval::Wait(1)),
        srgb: Some(false),
        ..ConfigBuilder::new()
    };
    let cands =
        vec![Candidate { config_id: 0x44, min_swap_interval: Ok(0), max_swap_interval: Ok(4) }];
    let mut configs = Config::new(&cb, display)
        .unwrap()
        .bound(true)
        .unwrap()
        .counted(Ok(1))
        .unwrap()
        .fetched(Ok(cands))
        .unwrap()
        .selected_with(vec![Ok(0x44)])
        .read(&vec![Readback { config_id: 0x44, attribs: Ok(native) }])
        .unwrap();
    configs.remove(0)
}

fn egl_context(display: &Arc<Display>, handle: usize) -> EglContext {
    let (attribs, config) = config(display);
    let conf = ConfigWrapper { config: &config, attribs: &attribs };
    let cb = ContextBuilderWrapper { sharing: None, debug: false, robustness: Robustness::NotRobust };
    EglContext::new(cb, conf, true).unwrap().created(handle, ffi::SUCCESS).unwrap()
}

fn window_surface(display: &Arc<Display>, handle: usize) -> Surface<Window> {
    let (attribs, config) = config(display);
    let conf = ConfigWrapper { config: &config, attribs: &attribs };
    Surface::<Window>::new(conf, handle, ffi::SUCCESS).unwrap()
}

fn pbuffer(display: &Arc<Display>, handle: usize) -> Surface<PBuffer> {
    let (attribs, config) = config(display);
    let conf = ConfigWrapper { config: &config, attribs: &attribs };
    Surface::<PBuffer>::new(conf, handle, ffi::SUCCESS).unwrap()
}

fn windowed(display: &Arc<Display>) -> WindowedContext<NotCurrentContext, &'static str> {
    let builder: ContextBuilder<NotCurrentContext> = ContextBuilder {
        gl_attr: ContextBuilderWrapper {
            sharing: None,
            debug: false,
            robustness: Robustness::NotRobust,
        },
    };
    builder.build_windowed("the window", egl_context(display, 0x900), window_surface(display, 0x500))
}

fn split(display: &Arc<Display>) -> Full<NotCurrent> {
    Full::<NotCurrent>::new(egl_context(display, 0x900))
}

#[test]
fn markers_say_what_they_stand_for() {
    assert!(PBuffers::supported());
    assert!(!NoPBuffers::supported());
    assert!(Windows::supported());
    assert!(!NoWindows::supported());
    assert!(Surfaceless::supported());
    assert!(!NoSurfaceless::supported());
    assert_eq!(NotCurrent::state(), Currency::NotCurrent);
    assert_eq!(Possibly::state(), Currency::PossiblyCurrent);
    assert_eq!(PossiblyAndSurfaceBound::state(), Currency::PossiblyCurrentAndSurfaceBound);
    assert_eq!(
        context_supports::<PBuffers, NoWindows, Surfaceless>(),
        ContextSupports { pbuffers: true, window_surfaces: false, surfaceless: true }
    );
    assert_eq!(
        context_supports::<NoPBuffers, Windows, NoSurfaceless>(),
        ContextSupports { pbuffers: false, window_surfaces: true, surfaceless: false }
    );
}

#[test]
fn windowed_context_keeps_its_window() {
    let display = open((1, 4), "");
    let ctx = windowed(&display);
    assert_eq!(*ctx.window(), "the window");
    assert_eq!(ctx.get_api(), Api::OpenGl);
    assert_eq!(ctx.context().inner().handle(), 0x900);
    assert_eq!(ctx.context().surface().handle(), 0x500);
    assert!(ctx.is_current(0x900));
    assert!(!ctx.is_current(0x901));
    let (raw, window) = ctx.split();
    assert_eq!(window, "the window");
    assert_eq!(*raw.window(), ());
    assert_eq!(raw.context().inner().handle(), 0x900);
}

#[test]
fn windowed_context_follows_the_bind_result() {
    let display = open((1, 4), "");
    let ctx = windowed(&display);
    assert_eq!(
        ctx.make_current_call(),
        BindRequest { display: 0x7000, draw: 0x500, read: 0x500, context: 0x900 }
    );
    // A failure gives the context back as it was.
    let (ctx, err) = ctx.make_current(Err(ffi::CONTEXT_LOST)).unwrap_err();
    assert_eq!(err.kind(), ErrorType::ContextLost);
    let (ctx, err) = ctx.make_current(Err(0x3001)).unwrap_err();
    assert_eq!(
        err.kind(),
        ErrorType::OsError(OsError::Native { call: NativeCall::MakeCurrent, code: 0x3001 })
    );

    let (current, interval): (WindowedContext<PossiblyCurrentContext, _>, _) =
        ctx.make_current(Ok(())).unwrap();
    assert_eq!(interval, Some(1));
    current.context().surface().swap_interval_set(Ok(())).unwrap();
    let (current, interval) = current.make_current(Ok(())).unwrap();
    assert_eq!(interval, None);

    assert_eq!(
        current.get_pixel_format(),
        PixelFormat {
            hardware_accelerated: true,
            color_bits: 24,
            alpha_bits: 0,
            depth_bits: 16,
            stencil_bits: 0,
            stereoscopy: false,
            double_buffer: true,
            multisampling: Some(8),
            srgb: false,
        }
    );
    assert_eq!(current.resize(PhysicalSize { width: 800, height: 600 }), (800, 600));
    assert_eq!(current.get_proc_address("glFlush"), b"glFlush\0".to_vec());
    let request = current.swap_buffers_call().unwrap();
    assert_eq!((request.display, request.surface, request.n_rects), (0x7000, 0x500, 0));
    assert!(current.swap_buffers(Ok(())).is_ok());
    assert_eq!(
        current.swap_buffers(Err(ffi::CONTEXT_LOST)).unwrap_err().kind(),
        ErrorType::ContextLost
    );

    // Not the current one: nothing to call, and a success.
    assert_eq!(current.make_not_current_call(0x901), None);
    let idle = current.make_not_current(0x901, Err(1)).unwrap();
    // The current one: unbind, and a failure gives it back.
    let again = idle.make_current(Ok(())).unwrap().0;
    assert_eq!(again.make_not_current_call(0x900), Some(BindRequest::unbind(0x7000)));
    let (again, err) = again.make_not_current(0x900, Err(ffi::CONTEXT_LOST)).unwrap_err();
    assert_eq!(err.kind(), ErrorType::ContextLost);
    let idle: WindowedContext<NotCurrentContext, _> = again.make_not_current(0x900, Ok(())).unwrap();
    let relabelled = idle.make_current(Ok(())).unwrap().0.treat_as_not_current();
    assert_eq!(*relabelled.window(), "the window");
}

#[test]
fn typed_context_without_window() {
    let display = open((1, 4), "");
    let ctx = Context::<NotCurrentContext>::new(
        egl_context(&display, 0x900),
        window_surface(&display, 0x500),
    );
    assert!(ctx.is_current(0x900));
    assert_eq!(ctx.get_api(), Api::OpenGl);
    let current = ctx.treat_as_current();
    assert_eq!(current.resize(3, 4), (3, 4));
    assert_eq!(current.get_pixel_format().color_bits, 24);
    assert_eq!(current.get_proc_address("a"), vec![b'a', 0]);
    let idle = current.treat_as_not_current();
    assert_eq!(idle.make_not_current_call(0x900), Some(BindRequest::unbind(0x7000)));
    assert_eq!(idle.inner().handle(), 0x900);
}

#[test]
fn sharing_is_mapped_to_the_native_context() {
    let display = open((1, 4), "");
    let other = Context::<NotCurrentContext>::new(
        egl_context(&display, 0x900),
        window_surface(&display, 0x500),
    );
    let builder = ContextBuilder {
        gl_attr: ContextBuilderWrapper {
            sharing: Some(&other),
            debug: true,
            robustness: Robustness::NoError,
        },
    };
    let mapped = builder.map_sharing();
    assert_eq!(mapped.sharing.map(|c| c.handle()), Some(0x900));
    assert!(mapped.debug);
    assert_eq!(mapped.robustness, Robustness::NoError);
}

#[test]
fn split_context_with_a_window_surface() {
    let display = open((1, 4), "");
    let ctx = split(&display);
    assert_eq!(ctx.inner().handle(), 0x900);
    assert_eq!(ctx.get_api(), Api::OpenGl);
    assert_eq!(ctx.get_pixel_format().multisampling, Some(8));
    assert!(ctx.is_current(0x900));
    let surface = LighterSurface::<Window, NotInUse>::new(window_surface(&display, 0x500));
    assert_eq!(
        ctx.make_current_surface_call(&surface),
        BindRequest { display: 0x7000, draw: 0x500, read: 0x500, context: 0x900 }
    );

    let (ctx, surface, err) = ctx.make_current_surface(surface, Err(0x3002)).unwrap_err();
    assert_eq!(
        err.kind(),
        ErrorType::OsError(OsError::Native { call: NativeCall::MakeCurrent, code: 0x3002 })
    );
    let (ctx, surface, interval) = ctx.make_current_surface(surface, Ok(())).unwrap();
    assert_eq!(interval, Some(1));
    surface.inner().swap_interval_set(Ok(())).unwrap();
    ctx.update_after_resize();
    assert_eq!(ctx.get_proc_address("glFlush"), b"glFlush\0".to_vec());
    let (ctx, surface, interval) = ctx.make_current_surface(surface, Ok(())).unwrap();
    assert_eq!(interval, None);

    let unified = ctx.unify_with_window(surface);
    assert_eq!(unified.context.inner().handle(), 0x900);
    assert_eq!(unified.surface.inner().handle(), 0x500);
}

#[test]
fn split_context_with_a_pbuffer_and_without_surface() {
    let display = open((1, 4), "");
    let ctx = split(&display);
    let buffer = LighterSurface::<PBuffer, NotInUse>::new(pbuffer(&display, 0x600));
    assert_eq!(
        ctx.make_current_pbuffer_call(&buffer),
        BindRequest { display: 0x7000, draw: 0x600, read: 0x600, context: 0x900 }
    );
    let (ctx, buffer, err) = ctx.make_current_pbuffer(buffer, Err(ffi::CONTEXT_LOST)).unwrap_err();
    assert_eq!(err.kind(), ErrorType::ContextLost);
    let (ctx, buffer) = ctx.make_current_pbuffer(buffer, Ok(())).unwrap();
    let unified = ctx.unify_with_pbuffer(buffer);
    assert_eq!(unified.surface.inner().handle(), 0x600);
    let ctx = unified.context;

    assert_eq!(
        ctx.make_current_surfaceless_call(),
        BindRequest { display: 0x7000, draw: 0, read: 0, context: 0x900 }
    );
    let (ctx, err) = ctx.make_current_surfaceless(Err(ffi::CONTEXT_LOST)).unwrap_err();
    assert_eq!(err.kind(), ErrorType::ContextLost);
    let ctx = ctx.make_current_surfaceless(Ok(())).unwrap();
    assert_eq!(ctx.unify().context.inner().handle(), 0x900);
}

#[test]
fn split_context_stops_being_current() {
    let display = open((1, 4), "");
    let ctx = split(&display).treat_as_current::<Possibly>();
    assert_eq!(ctx.make_not_current_call(0x901), None);
    assert_eq!(ctx.make_not_current_call(0x900), Some(BindRequest::unbind(0x7000)));
    let (ctx, err) = ctx.make_not_current(0x900, Err(ffi::CONTEXT_LOST)).unwrap_err();
    assert_eq!(err.kind(), ErrorType::ContextLost);
    let idle: Full<NotCurrent> = ctx.make_not_current(0x901, Err(ffi::CONTEXT_LOST)).unwrap();
    let idle: Full<NotCurrent> =
        idle.treat_as_current::<PossiblyAndSurfaceBound>().treat_as_not_current();
    assert_eq!(idle.inner().handle(), 0x900);
}

#[test]
fn lighter_builder_creates_a_split_context() {
    let display = open((1, 5), "");
    let (attribs, config) = config(&display);
    let conf = || ConfigWrapper { config: &config, attribs: &attribs };
    let other = split(&display);
    let builder = |robustness: Robustness| LighterContextBuilder {
        gl_attr: ContextBuilderWrapper { sharing: Some(&other), debug: true, robustness },
    };

    let err = builder(Robustness::NotRobust)
        .build_lighter(conf(), false, PBuffers::Supported, Windows::Supported, NoSurfaceless::Unsupported)
        .unwrap_err();
    assert_eq!(err.kind(), ErrorType::VersionNotSupported);

    let creating = builder(Robustness::NotRobust)
        .build_lighter(conf(), true, PBuffers::Supported, NoWindows::Unsupported, Surfaceless::Supported)
        .unwrap();
    assert_eq!(
        creating.supports(),
        ContextSupports { pbuffers: true, window_surfaces: false, surfaceless: true }
    );
    assert_eq!(creating.creating().share(), 0x900);
    assert_eq!(creating.creating().config_id(), 0x44);
    assert_eq!(
        creating.creating().attributes(),
        &vec![
            ffi::CONTEXT_MAJOR_VERSION,
            3,
            ffi::CONTEXT_MINOR_VERSION,
            3,
            ffi::CONTEXT_OPENGL_DEBUG,
            ffi::TRUE,
            ffi::NONE,
        ]
    );
    let ctx = creating.created(0x901, ffi::SUCCESS).unwrap();
    assert_eq!(ctx.inner().handle(), 0x901);
    let ctx = ctx.make_current_surfaceless(Ok(())).unwrap();
    assert!(ctx.is_current(0x901));

    let creating = builder(Robustness::NotRobust)
        .build_lighter(conf(), true, PBuffers::Supported, Windows::Supported, Surfaceless::Supported)
        .unwrap();
    let err = creating.created(ffi::NO_CONTEXT, ffi::BAD_MATCH).unwrap_err();
    assert_eq!(err.kind(), ErrorType::VersionNotSupported);
}

fn sendable<T: Send>() {}

#[test]
fn contexts_that_are_not_current_can_change_threads() {
    sendable::<Full<NotCurrent>>();
    sendable::<SplitContext<NotCurrent, NoPBuffers, NoWindows, NoSurfaceless>>();
    sendable::<WindowedContext<NotCurrentContext, ()>>();
    sendable::<Context<NotCurrentContext>>();
    sendable::<EglContext>();
    sendable::<Surface<Window>>();
    sendable::<LighterSurface<PBuffer, NotInUse>>();
}
