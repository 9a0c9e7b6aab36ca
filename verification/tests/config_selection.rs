use egl_context::config::{
    Api, ConfigAttribs, ConfigBuilder, PlatformAttributes, ReleaseBehavior, SwapInterval,
    SwapIntervalRange, SwapIntervalRanges, Version,
};
use egl_context::egl::config::{
    filter_attrib_list, get_native_visual_id, native_visual_id_query, split_color_bits,
    AttribQuery, Candidate, Config, NativeAttribs, Readback, Selecting,
};
use egl_context::egl::display::{BindApi, Display, Initialized, RawDisplay};
use egl_context::egl::table::{Egl, ENTRY_POINTS};
use egl_context::error::{Error, ErrorType, NativeCall, OsError, Unsupported};
use egl_context::ffi;
use std::sync::Arc;

fn open(version: (i32, i32), extensions: &str) -> Arc<Display> {
    let egl = Egl::from_addresses(vec![0x1000usize; ENTRY_POINTS]).unwrap();
    let acquiring = Display::new(None, &egl, &RawDisplay::Wayland { wl_display: 0x10 }).unwrap();
    let initializing = acquiring.acquired(0x7000, ffi::SUCCESS).unwrap();
    match initializing.initialized(Ok(version)).unwrap() {
        Initialized::Query(querying) => querying.queried(Some(extensions), ffi::SUCCESS).unwrap(),
        Initialized::Ready(display) => display,
    }
}

fn candidate(config_id: usize, min: i32, max: i32) -> Candidate {
    Candidate { config_id, min_swap_interval: Ok(min), max_swap_interval: Ok(max) }
}

fn attribs(min: i32, max: i32) -> NativeAttribs {
    NativeAttribs {
        min_swap_interval: min,
        max_swap_interval: max,
        caveat: ffi::NONE,
        red_size: 8,
        green_size: 8,
        blue_size: 8,
        alpha_size: 8,
        depth_size: 24,
        stencil_size: 8,
        samples: 0,
    }
}

fn readback(config_id: usize) -> Readback {
    Readback { config_id, attribs: Ok(attribs(0, 4)) }
}

/// Runs a selection up to the caller's choice.
fn select(cb: &ConfigBuilder, display: &Arc<Display>, cands: Vec<Candidate>) -> Selecting {
    let binding = Config::new(cb, display).unwrap();
    let counting = binding.bound(true).unwrap();
    let fetching = counting.counted(Ok(cands.len())).unwrap();
    fetching.fetched(Ok(cands)).unwrap()
}

fn accept_all(ids: Vec<usize>, _display: &Arc<Display>) -> Vec<Result<usize, Error>> {
    ids.into_iter().map(Ok).collect()
}

#[test]
fn color_bits_are_split_as_evenly_as_possible() {
    assert_eq!(split_color_bits(24), (8, 8, 8));
    assert_eq!(split_color_bits(16), (5, 6, 5));
    assert_eq!(split_color_bits(17), (5, 6, 6));
    assert_eq!(split_color_bits(0), (0, 0, 0));
    assert_eq!(split_color_bits(1), (0, 1, 0));
    assert_eq!(split_color_bits(255), (85, 85, 85));
    assert_eq!(split_color_bits(254), (84, 85, 85));
}

#[test]
fn color_split_uses_all_bits() {
    for color in 0..=255u8 {
        let (red, green, blue) = split_color_bits(color);
        assert_eq!(red as u32 + green as u32 + blue as u32, color as u32);
        assert!(red <= blue && blue <= green && green <= red + 1);
    }
}

#[test]
fn plain_request_has_a_short_filter() {
    let cb = ConfigBuilder::new();
    assert_eq!(
        filter_attrib_list(&cb, (1, 4)),
        vec![
            ffi::COLOR_BUFFER_TYPE,
            ffi::RGB_BUFFER,
            ffi::SURFACE_TYPE,
            ffi::WINDOW_BIT,
            ffi::RENDERABLE_TYPE,
            ffi::OPENGL_BIT,
            ffi::CONFORMANT,
            ffi::OPENGL_BIT,
            ffi::NONE,
        ]
    );
}

#[test]
fn full_request_names_every_attribute_in_order() {
    let cb = ConfigBuilder {
        version: (Api::OpenGlEs, Version(3, 0)),
        window_surface_support: true,
        pbuffer_surface_support: true,
        pixmap_surface_support: true,
        surfaceless_support: false,
        hardware_accelerated: Some(true),
        color_bits: Some(17),
        alpha_bits: Some(8),
        depth_bits: Some(24),
        stencil_bits: Some(1),
        double_buffer: Some(true),
        multisampling: Some(4),
        stereoscopy: false,
        srgb: Some(false),
        release_behavior: ReleaseBehavior::Flush,
        desired_swap_interval: Some(SwapInterval::Wait(1)),
        plat_attr: PlatformAttributes { x11_visual_xid: Some(0x21) },
    };
    assert_eq!(
        filter_attrib_list(&cb, (1, 5)),
        vec![
            0x303F, 0x308E, // colour buffer type: RGB
            0x3033, 0x0007, // surface type: window, pbuffer and pixmap
            0x3040, 0x0040, // renderable type: ES 3
            0x3042, 0x0040, // conformant: ES 3
            0x3027, 0x3038, // caveat: none
            0x3024, 5, // red
            0x3023, 6, // green
            0x3022, 6, // blue
            0x3021, 8, // alpha
            0x3025, 24, // depth
            0x3026, 1, // stencil
            0x3031, 4, // samples
            0x302E, 0x21, // native visual
            0x3038,
        ]
    );
}

#[test]
fn filter_depends_on_api_and_protocol() {
    let es = |major: u8| ConfigBuilder {
        version: (Api::OpenGlEs, Version(major, 0)),
        pbuffer_surface_support: true,
        window_surface_support: false,
        hardware_accelerated: Some(false),
        ..ConfigBuilder::new()
    };
    assert_eq!(
        filter_attrib_list(&es(2), (1, 3)),
        vec![
            ffi::COLOR_BUFFER_TYPE,
            ffi::RGB_BUFFER,
            ffi::SURFACE_TYPE,
            ffi::PBUFFER_BIT,
            ffi::RENDERABLE_TYPE,
            ffi::OPENGL_ES2_BIT,
            ffi::CONFORMANT,
            ffi::OPENGL_ES2_BIT,
            ffi::CONFIG_CAVEAT,
            ffi::SLOW_CONFIG,
            ffi::NONE,
        ]
    );
    // Before 1.3 there is no renderable type, before 1.2 no buffer type.
    assert_eq!(
        filter_attrib_list(&es(1), (1, 2)),
        vec![
            ffi::COLOR_BUFFER_TYPE,
            ffi::RGB_BUFFER,
            ffi::SURFACE_TYPE,
            ffi::PBUFFER_BIT,
            ffi::CONFIG_CAVEAT,
            ffi::SLOW_CONFIG,
            ffi::NONE,
        ]
    );
    assert_eq!(
        filter_attrib_list(&es(1), (1, 1)),
        vec![ffi::SURFACE_TYPE, ffi::PBUFFER_BIT, ffi::CONFIG_CAVEAT, ffi::SLOW_CONFIG, ffi::NONE]
    );
    assert_eq!(
        filter_attrib_list(&es(1), (1, 3)),
        vec![
            ffi::COLOR_BUFFER_TYPE,
            ffi::RGB_BUFFER,
            ffi::SURFACE_TYPE,
            ffi::PBUFFER_BIT,
            ffi::RENDERABLE_TYPE,
            ffi::OPENGL_ES_BIT,
            ffi::CONFORMANT,
            ffi::OPENGL_ES_BIT,
            ffi::CONFIG_CAVEAT,
            ffi::SLOW_CONFIG,
            ffi::NONE,
        ]
    );
}

#[test]
fn known_versions() {
    assert!(ConfigBuilder::new().has_known_version());
    let es = |major: u8| ConfigBuilder {
        version: (Api::OpenGlEs, Version(major, 0)),
        ..ConfigBuilder::new()
    };
    assert!(es(1).has_known_version());
    assert!(es(3).has_known_version());
    assert!(!es(0).has_known_version());
    assert!(!es(4).has_known_version());
    let web = ConfigBuilder { version: (Api::WebGl, Version(1, 0)), ..ConfigBuilder::new() };
    assert!(!web.has_known_version());
}

#[test]
fn surfaceless_without_capability_is_not_supported() {
    let display = open((1, 5), "EGL_KHR_create_context EGL_KHR_gl_colorspace");
    let cb = ConfigBuilder { surfaceless_support: true, ..ConfigBuilder::new() };
    let err = Config::new(&cb, &display).unwrap_err();
    assert_eq!(err.kind(), ErrorType::NotSupported(Unsupported::Surfaceless));
    assert!(err.reasons().is_empty());

    let display = open((1, 5), "EGL_KHR_create_context EGL_KHR_surfaceless_context");
    assert!(Config::new(&cb, &display).is_ok());
}

#[test]
fn selection_binds_the_api_first() {
    let display = open((1, 4), "");
    let binding = Config::new(&ConfigBuilder::new(), &display).unwrap();
    assert_eq!(binding.call(), BindApi::Bind(ffi::OPENGL_API));
    let err = binding.bound(false).unwrap_err();
    assert_eq!(err.kind(), ErrorType::VersionNotSupported);

    let display = open((1, 3), "");
    let binding = Config::new(&ConfigBuilder::new(), &display).unwrap();
    assert_eq!(binding.call(), BindApi::Refuse);
    assert_eq!(binding.bound(true).unwrap_err().kind(), ErrorType::VersionNotSupported);
}

#[test]
fn adaptive_swap_interval_is_never_available() {
    let display = open((1, 5), "");
    let cb = ConfigBuilder {
        desired_swap_interval: Some(SwapInterval::AdaptiveWait(1)),
        ..ConfigBuilder::new()
    };
    let err = Config::new(&cb, &display).unwrap().bound(true).unwrap_err();
    assert_eq!(err.kind(), ErrorType::NoAvailableConfig);
    assert_eq!(err.reasons(), &vec![ErrorType::AdaptiveSwapControlNotSupported]);
}

#[test]
fn requests_that_nothing_can_match_end_early() {
    let display = open((1, 5), "");
    let refused = [
        ConfigBuilder { double_buffer: Some(false), ..ConfigBuilder::new() },
        ConfigBuilder { stereoscopy: true, ..ConfigBuilder::new() },
        ConfigBuilder { srgb: Some(true), ..ConfigBuilder::new() },
    ];
    for cb in refused {
        let err = Config::new(&cb, &display).unwrap().bound(true).unwrap_err();
        assert_eq!(err.kind(), ErrorType::NoAvailableConfig);
        assert!(err.reasons().is_empty());
    }
    let es3 = ConfigBuilder { version: (Api::OpenGlEs, Version(3, 0)), ..ConfigBuilder::new() };
    let old = open((1, 2), "");
    let err = Config::new(&es3, &old).unwrap().bound(true).unwrap_err();
    assert_eq!(err.kind(), ErrorType::NoAvailableConfig);

    let accepted = [
        ConfigBuilder { double_buffer: Some(true), ..ConfigBuilder::new() },
        ConfigBuilder { srgb: Some(false), ..ConfigBuilder::new() },
    ];
    for cb in accepted {
        assert!(Config::new(&cb, &display).unwrap().bound(true).is_ok());
    }
    let colorspace = open((1, 5), "EGL_KHR_gl_colorspace");
    let cb = ConfigBuilder { srgb: Some(true), ..ConfigBuilder::new() };
    assert!(Config::new(&cb, &colorspace).unwrap().bound(true).is_ok());
}

#[test]
fn keeping_commands_on_release_needs_flush_control() {
    let cb = ConfigBuilder { release_behavior: ReleaseBehavior::Keep, ..ConfigBuilder::new() };
    let display = open((1, 5), "EGL_KHR_gl_colorspace");
    let err = Config::new(&cb, &display).unwrap().bound(true).unwrap_err();
    assert_eq!(err.kind(), ErrorType::NoAvailableConfig);
    assert_eq!(err.reasons(), &vec![ErrorType::FlushControlNotSupported]);

    let display = open((1, 5), "EGL_KHR_context_flush_control");
    assert!(Config::new(&cb, &display).unwrap().bound(true).is_ok());
}

#[test]
fn counting_stage_holds_the_filter() {
    let display = open((1, 4), "");
    let cb = ConfigBuilder::new();
    let counting = Config::new(&cb, &display).unwrap().bound(true).unwrap();
    assert_eq!(counting.descriptor(), &filter_attrib_list(&cb, (1, 4)));

    let counting = Config::new(&cb, &display).unwrap().bound(true).unwrap();
    let err = counting.counted(Ok(0)).unwrap_err();
    assert_eq!(err.kind(), ErrorType::NoAvailableConfig);
    assert!(err.reasons().is_empty());

    let counting = Config::new(&cb, &display).unwrap().bound(true).unwrap();
    let err = counting.counted(Err(0x3008)).unwrap_err();
    assert_eq!(err.kind(), ErrorType::NoAvailableConfig);
    assert_eq!(
        err.reasons(),
        &vec![ErrorType::OsError(OsError::Native { call: NativeCall::ChooseConfig, code: 0x3008 })]
    );

    let counting = Config::new(&cb, &display).unwrap().bound(true).unwrap();
    let fetching = counting.counted(Ok(3)).unwrap();
    assert_eq!(fetching.count(), 3);
    assert_eq!(fetching.descriptor(), &filter_attrib_list(&cb, (1, 4)));
    assert!(!fetching.needs_swap_limits());
    let err = fetching.fetched(Err(0x3005)).unwrap_err();
    assert_eq!(
        err.reasons(),
        &vec![ErrorType::OsError(OsError::Native { call: NativeCall::ChooseConfig, code: 0x3005 })]
    );
}

#[test]
fn swap_interval_outside_every_range_leaves_no_config() {
    let display = open((1, 4), "");
    let cb = ConfigBuilder {
        desired_swap_interval: Some(SwapInterval::Wait(5)),
        ..ConfigBuilder::new()
    };
    let fetching =
        Config::new(&cb, &display).unwrap().bound(true).unwrap().counted(Ok(3)).unwrap();
    assert!(fetching.needs_swap_limits());
    let cands = vec![candidate(11, 0, 4), candidate(12, 6, 9), candidate(13, 1, 1)];
    let err = fetching.fetched(Ok(cands)).unwrap_err();
    assert_eq!(err.kind(), ErrorType::NoAvailableConfig);
    assert_eq!(
        err.reasons(),
        &vec![
            ErrorType::OsError(OsError::SwapIntervalAboveMaximum { config: 11 }),
            ErrorType::OsError(OsError::SwapIntervalBelowMinimum { config: 12 }),
            ErrorType::OsError(OsError::SwapIntervalAboveMaximum { config: 13 }),
        ]
    );
}

#[test]
fn swap_interval_keeps_the_configs_that_accept_it() {
    let display = open((1, 4), "");
    let cb =
        ConfigBuilder { desired_swap_interval: Some(SwapInterval::DontWait), ..ConfigBuilder::new() };
    let cands = vec![
        candidate(1, 0, 0),
        candidate(2, 1, 4),
        Candidate { config_id: 3, min_swap_interval: Err(0x3004), max_swap_interval: Ok(9) },
        Candidate { config_id: 4, min_swap_interval: Ok(0), max_swap_interval: Err(0x3005) },
        candidate(5, 0, 10),
        candidate(6, -3, -1),
    ];
    let selecting = select(&cb, &display, cands);
    assert_eq!(selecting.ids(), &vec![1, 5]);
    let reading = selecting.selected_with(vec![Ok(1), Ok(5)]);
    let err = reading.read(&Vec::new()).unwrap_err();
    assert_eq!(
        err.reasons(),
        &vec![
            ErrorType::OsError(OsError::SwapIntervalBelowMinimum { config: 2 }),
            ErrorType::OsError(OsError::ConfigAttrib { config: 3, code: 0x3004 }),
            ErrorType::OsError(OsError::ConfigAttrib { config: 4, code: 0x3005 }),
            ErrorType::OsError(OsError::SwapIntervalAboveMaximum { config: 6 }),
        ]
    );
}

#[test]
fn limits_are_ignored_without_a_desired_interval() {
    let display = open((1, 4), "");
    let cands = vec![
        Candidate { config_id: 3, min_swap_interval: Err(0x3004), max_swap_interval: Err(1) },
        candidate(6, 7, 2),
    ];
    let selecting = select(&ConfigBuilder::new(), &display, cands);
    assert_eq!(selecting.ids(), &vec![3, 6]);
}

#[test]
fn selector_errors_are_merged() {
    let display = open((1, 4), "");
    let selecting =
        select(&ConfigBuilder::new(), &display, vec![candidate(1, 0, 1), candidate(2, 0, 1)]);
    let mut nested = Error::new(ErrorType::NotSupported(Unsupported::DisplayType));
    nested.push(ErrorType::ContextLost);
    let reading = selecting.selected_with(vec![Err(nested), Ok(2)]);
    assert_eq!(reading.ids(), &vec![2]);
    let err =
        reading.read(&vec![Readback { config_id: 2, attribs: Err(0x3005) }]).unwrap_err();
    assert_eq!(err.kind(), ErrorType::NoAvailableConfig);
    assert_eq!(
        err.reasons(),
        &vec![
            ErrorType::NotSupported(Unsupported::DisplayType),
            ErrorType::ContextLost,
            ErrorType::OsError(OsError::ConfigAttrib { config: 2, code: 0x3005 }),
        ]
    );
}

#[test]
fn selector_sees_candidates_and_display() {
    let display = open((1, 4), "EGL_KHR_gl_colorspace");
    let selecting =
        select(&ConfigBuilder::new(), &display, vec![candidate(1, 0, 1), candidate(2, 0, 1)]);
    let reading = selecting.selected(|ids: Vec<usize>, d: &Arc<Display>| {
        assert_eq!(ids, vec![1, 2]);
        assert!(d.has_extension("EGL_KHR_gl_colorspace"));
        vec![Ok(2), Err(Error::new(ErrorType::ContextLost))]
    });
    assert_eq!(reading.ids(), &vec![2]);
    let err = reading.read(&Vec::new()).unwrap_err();
    assert_eq!(err.reasons(), &vec![ErrorType::ContextLost]);
}

#[test]
fn unconstrained_request_returns_every_config() {
    for (version, protocol) in [
        ((Api::OpenGl, Version(3, 3)), (1, 4)),
        ((Api::OpenGl, Version(4, 6)), (1, 5)),
        ((Api::OpenGlEs, Version(1, 1)), (1, 1)),
        ((Api::OpenGlEs, Version(2, 0)), (1, 3)),
        ((Api::OpenGlEs, Version(3, 2)), (1, 4)),
    ] {
        let display = open(protocol, "");
        let cb = ConfigBuilder { version, ..ConfigBuilder::new() };
        let selecting = select(&cb, &display, vec![candidate(21, 0, 1)]);
        let reading = selecting.selected(accept_all);
        assert_eq!(reading.ids(), &vec![21]);
        let configs = reading.read(&vec![readback(21)]).unwrap();
        assert_eq!(configs.len(), 2);
        assert_eq!(configs[0].1.config_id(), 21);
        assert_eq!(configs[0].1.version(), version);
        assert_eq!(configs[0].0.version, version);
    }
}

#[test]
fn readback_becomes_attributes() {
    let display = open((1, 4), "");
    let cb = ConfigBuilder {
        pbuffer_surface_support: true,
        srgb: Some(false),
        ..ConfigBuilder::new()
    };
    let selecting = select(&cb, &display, vec![candidate(7, 0, 0)]);
    let reading = selecting.selected(accept_all);
    let native = NativeAttribs {
        min_swap_interval: 0,
        max_swap_interval: 4,
        caveat: ffi::SLOW_CONFIG,
        red_size: 5,
        green_size: 6,
        blue_size: 5,
        alpha_size: 0,
        depth_size: 16,
        stencil_size: 8,
        samples: 4,
    };
    assert!(native.is_usable());
    let configs = reading.read(&vec![Readback { config_id: 7, attribs: Ok(native) }]).unwrap();
    assert_eq!(configs.len(), 1);
    assert_eq!(
        configs[0].0,
        ConfigAttribs {
            version: (Api::OpenGl, Version(3, 3)),
            window_surface_support: true,
            pbuffer_surface_support: true,
            pixmap_surface_support: false,
            surfaceless_support: false,
            hardware_accelerated: false,
            color_bits: 16,
            alpha_bits: 0,
            depth_bits: 16,
            stencil_bits: 8,
            stereoscopy: false,
            double_buffer: true,
            multisampling: Some(4),
            srgb: false,
            release_behavior: ReleaseBehavior::Flush,
            desired_swap_interval: SwapInterval::Wait(1),
            swap_interval_ranges: SwapIntervalRanges {
                first: SwapIntervalRange::Wait { start: 1, end: 4 },
                second: Some(SwapIntervalRange::DontWait),
            },
        }
    );
    assert_eq!(configs[0].1.config_id(), 7);
    assert!(Arc::ptr_eq(configs[0].1.display(), &display));
    assert_eq!(native.to_attribs(&cb), configs[0].0);
}

#[test]
fn desired_interval_wins_over_the_default() {
    let cb = ConfigBuilder {
        desired_swap_interval: Some(SwapInterval::Wait(3)),
        ..ConfigBuilder::new()
    };
    let a = attribs(0, 4).to_attribs(&cb);
    assert_eq!(a.desired_swap_interval, SwapInterval::Wait(3));
    let a = attribs(0, 0).to_attribs(&ConfigBuilder::new());
    assert_eq!(a.desired_swap_interval, SwapInterval::DontWait);
    assert_eq!(a.multisampling, None);
    assert!(a.hardware_accelerated);
    let a = attribs(2, 4).to_attribs(&ConfigBuilder::new());
    assert_eq!(a.desired_swap_interval, SwapInterval::Wait(2));
    let one_sample = NativeAttribs { samples: 1, ..attribs(0, 0) };
    assert_eq!(one_sample.to_attribs(&ConfigBuilder::new()).multisampling, None);
    let two_samples = NativeAttribs { samples: 2, ..attribs(0, 0) };
    assert_eq!(two_samples.to_attribs(&ConfigBuilder::new()).multisampling, Some(2));
}

#[test]
fn swap_interval_ranges_follow_the_limits() {
    let none = SwapIntervalRanges::from_limits(0, 0);
    assert_eq!(none.to_vec(), vec![SwapIntervalRange::DontWait]);
    assert_eq!(none.default_interval(), SwapInterval::DontWait);

    let both = SwapIntervalRanges::from_limits(0, 3);
    assert_eq!(
        both.to_vec(),
        vec![SwapIntervalRange::Wait { start: 1, end: 3 }, SwapIntervalRange::DontWait]
    );
    assert_eq!(both.default_interval(), SwapInterval::Wait(1));

    let wait = SwapIntervalRanges::from_limits(2, 3);
    assert_eq!(wait.to_vec(), vec![SwapIntervalRange::Wait { start: 2, end: 3 }]);
    assert_eq!(wait.default_interval(), SwapInterval::Wait(2));

    assert_eq!(SwapInterval::DontWait.refreshes(), 0);
    assert_eq!(SwapInterval::Wait(7).refreshes(), 7);
    assert_eq!(SwapInterval::AdaptiveWait(2).refreshes(), 2);
}

#[test]
fn unusable_attributes_are_recognised() {
    assert!(attribs(0, 0).is_usable());
    assert!(!attribs(-1, 0).is_usable());
    assert!(!attribs(0, -1).is_usable());
    let wide = NativeAttribs { red_size: 100, green_size: 100, blue_size: 100, ..attribs(0, 0) };
    assert!(!wide.is_usable());
    let just = NativeAttribs { red_size: 85, green_size: 85, blue_size: 85, ..attribs(0, 0) };
    assert!(just.is_usable());
    assert_eq!(just.to_attribs(&ConfigBuilder::new()).color_bits, 255);
}

#[test]
fn srgb_left_open_doubles_the_list() {
    let display = open((1, 4), "EGL_KHR_gl_colorspace");
    let cands = || vec![candidate(1, 0, 1), candidate(2, 0, 1), candidate(3, 0, 1)];
    let rbs = vec![readback(1), Readback { config_id: 2, attribs: Err(0x3004) }, readback(3)];
    let run = |srgb: Option<bool>| {
        let cb = ConfigBuilder { srgb, ..ConfigBuilder::new() };
        select(&cb, &display, cands()).selected(accept_all).read(&rbs).unwrap()
    };
    let open = run(None);
    for srgb in [false, true] {
        let closed = run(Some(srgb));
        assert_eq!(closed.len(), 2);
        assert_eq!(open.len(), 2 * closed.len());
        for i in 0..closed.len() {
            assert!(!open[i].0.srgb);
            assert!(open[i + closed.len()].0.srgb);
            assert_eq!(closed[i].0.srgb, srgb);
            assert_eq!(ConfigAttribs { srgb: true, ..open[i].0 }, open[i + closed.len()].0);
            assert_eq!(ConfigAttribs { srgb, ..open[i].0 }, closed[i].0);
            assert_eq!(open[i].1.config_id(), closed[i].1.config_id());
            assert_eq!(open[i + closed.len()].1.config_id(), closed[i].1.config_id());
        }
    }
    assert_eq!(open[0].1.config_id(), 1);
    assert_eq!(open[1].1.config_id(), 3);
}

#[test]
fn native_visual_id_comes_from_the_reply() {
    assert_eq!(
        native_visual_id_query(5, 6),
        AttribQuery { display: 5, config: 6, attribute: ffi::NATIVE_VISUAL_ID }
    );
    assert_eq!(get_native_visual_id(Ok(0x21)).unwrap(), 0x21);
    let err = get_native_visual_id(Err(0x3005)).unwrap_err();
    assert_eq!(
        err.kind(),
        ErrorType::OsError(OsError::Native { call: NativeCall::GetConfigAttrib, code: 0x3005 })
    );

    let display = open((1, 4), "");
    let configs = select(&ConfigBuilder::new(), &display, vec![candidate(9, 0, 1)])
        .selected(accept_all)
        .read(&vec![readback(9)])
        .unwrap();
    let config = &configs[0].1;
    assert_eq!(
        config.native_visual_id_query(),
        AttribQuery { display: 0x7000, config: 9, attribute: ffi::NATIVE_VISUAL_ID }
    );
    assert_eq!(config.get_native_visual_id(Ok(3)).unwrap(), 3);
    assert!(config.get_native_visual_id(Err(1)).is_err());
    let copy = config.share();
    assert_eq!(copy.config_id(), 9);
    assert!(Arc::ptr_eq(copy.display(), config.display()));
}

#[test]
fn errors_collect_reasons_in_order() {
    let mut e = Error::new(ErrorType::NoAvailableConfig);
    assert_eq!(e.kind(), ErrorType::NoAvailableConfig);
    assert!(e.reasons().is_empty());
    e.push(ErrorType::ContextLost);
    let mut other = Error::native(NativeCall::SwapBuffers, 7);
    other.push(ErrorType::FlushControlNotSupported);
    e.append(&other);
    assert_eq!(
        e.reasons(),
        &vec![
            ErrorType::ContextLost,
            ErrorType::OsError(OsError::Native { call: NativeCall::SwapBuffers, code: 7 }),
            ErrorType::FlushControlNotSupported,
        ]
    );
    let copy = e.duplicate();
    assert_eq!(copy.kind(), e.kind());
    assert_eq!(copy.reasons(), e.reasons());
}
