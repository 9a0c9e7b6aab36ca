use egl_context::config::Api;
use egl_context::egl::display::{
    contains_name, same_bytes, split_extensions, version_at_least, BindApi, Display, DisplayCall,
    Initialized, RawDisplay,
};
use egl_context::egl::table::{Egl, EntryPoint, ENTRY_POINTS};
use egl_context::error::{ErrorType, NativeCall, OsError, Unsupported};
use egl_context::ffi;
use std::sync::Arc;

fn table(platform: bool, platform_ext: bool) -> Egl {
    let mut addresses = vec![0x1000usize; ENTRY_POINTS];
    if !platform {
        addresses[EntryPoint::GetPlatformDisplay.index()] = 0;
    }
    if !platform_ext {
        addresses[EntryPoint::GetPlatformDisplayEXT.index()] = 0;
    }
    Egl::from_addresses(addresses).unwrap()
}

fn open(version: (i32, i32), client: Option<&str>, extensions: &str) -> Arc<Display> {
    let egl = table(true, true);
    let acquiring = Display::new(client, &egl, &RawDisplay::Wayland { wl_display: 0x10 }).unwrap();
    let initializing = acquiring.acquired(0x7000, ffi::SUCCESS).unwrap();
    match initializing.initialized(Ok(version)).unwrap() {
        Initialized::Query(querying) => querying.queried(Some(extensions), ffi::SUCCESS).unwrap(),
        Initialized::Ready(display) => display,
    }
}

fn names(list: &[&str]) -> Vec<Vec<u8>> {
    list.iter().map(|s| s.as_bytes().to_vec()).collect()
}

#[test]
fn split_extensions_cuts_at_every_space() {
    assert_eq!(split_extensions("EGL_a EGL_b"), names(&["EGL_a", "EGL_b"]));
    assert_eq!(split_extensions("one"), names(&["one"]));
    assert_eq!(split_extensions(""), names(&[""]));
    assert_eq!(split_extensions("a "), names(&["a", ""]));
    assert_eq!(split_extensions(" a"), names(&["", "a"]));
    assert_eq!(split_extensions("a  b"), names(&["a", "", "b"]));
    assert_eq!(split_extensions(" "), names(&["", ""]));
}

#[test]
fn split_extensions_agrees_with_str_split() {
    let text = "EGL_KHR_create_context EGL_EXT_platform_base  EGL_KHR_gl_colorspace ";
    let expected: Vec<Vec<u8>> = text.split(' ').map(|s| s.as_bytes().to_vec()).collect();
    assert_eq!(split_extensions(text), expected);
}

#[test]
fn split_then_join_gives_the_text_back() {
    let text = "x yy  zzz ";
    let joined: Vec<u8> = split_extensions(text).join(&b' ');
    assert_eq!(joined, text.as_bytes().to_vec());
    for name in split_extensions(text) {
        assert!(!name.contains(&b' '));
    }
}

#[test]
fn same_bytes_compares_whole_strings() {
    assert!(same_bytes(b"abc", b"abc"));
    assert!(same_bytes(b"", b""));
    assert!(!same_bytes(b"abc", b"abd"));
    assert!(!same_bytes(b"abc", b"ab"));
    assert!(!same_bytes(b"ab", b"abc"));
}

#[test]
fn contains_name_wants_the_whole_name() {
    let list = names(&["EGL_KHR_create_context", "EGL_KHR_gl_colorspace"]);
    assert!(contains_name(&list, "EGL_KHR_gl_colorspace"));
    assert!(!contains_name(&list, "EGL_KHR_gl"));
    assert!(!contains_name(&list, "EGL_KHR_gl_colorspace2"));
    assert!(!contains_name(&Vec::new(), "EGL_KHR_gl_colorspace"));
}

#[test]
fn version_comparison_is_lexicographic() {
    assert!(version_at_least((1, 4), 1, 4));
    assert!(version_at_least((1, 5), 1, 4));
    assert!(version_at_least((2, 0), 1, 4));
    assert!(!version_at_least((1, 3), 1, 4));
    assert!(!version_at_least((0, 9), 1, 4));
}

#[test]
fn platform_display_needs_extension_and_entry_point() {
    let nd = RawDisplay::Xlib { display: 0x50, screen: Some(2) };
    let client = names(&["EGL_KHR_platform_x11", "EGL_EXT_platform_x11"]);

    let call = Display::get_native_display(&client, &table(true, true), &nd).unwrap();
    assert_eq!(
        call,
        DisplayCall::Platform {
            platform: ffi::PLATFORM_X11_KHR,
            native_display: 0x50,
            screen: Some(2)
        }
    );
    assert_eq!(call.entry_point(), EntryPoint::GetPlatformDisplay);
    assert_eq!(call.attrib_list(), Some(vec![ffi::PLATFORM_X11_SCREEN_KHR, 2, ffi::NONE]));

    // The extension is advertised but the entry point is missing.
    let call = Display::get_native_display(&client, &table(false, true), &nd).unwrap();
    assert_eq!(
        call,
        DisplayCall::PlatformExt {
            platform: ffi::PLATFORM_X11_EXT,
            native_display: 0x50,
            screen: Some(2)
        }
    );
    assert_eq!(call.entry_point(), EntryPoint::GetPlatformDisplayEXT);
    assert_eq!(call.attrib_list(), Some(vec![ffi::PLATFORM_X11_SCREEN_EXT, 2, ffi::NONE]));

    // The entry point is loaded but the extension is not advertised.
    let only_ext = names(&["EGL_EXT_platform_x11"]);
    let call = Display::get_native_display(&only_ext, &table(true, true), &nd).unwrap();
    assert_eq!(call.entry_point(), EntryPoint::GetPlatformDisplayEXT);
}

#[test]
fn x11_screen_cannot_go_through_the_legacy_call() {
    let none = names(&[]);
    let with_screen = RawDisplay::Xlib { display: 0x50, screen: Some(1) };
    let err = Display::get_native_display(&none, &table(true, true), &with_screen).unwrap_err();
    assert_eq!(err.kind(), ErrorType::NotSupported(Unsupported::DisplayType));
    assert!(err.reasons().is_empty());

    let without = RawDisplay::Xlib { display: 0x50, screen: None };
    let call = Display::get_native_display(&none, &table(true, true), &without).unwrap();
    assert_eq!(call, DisplayCall::Legacy { native_display: 0x50 });
    assert_eq!(call.entry_point(), EntryPoint::GetDisplay);
    assert_eq!(call.attrib_list(), None);
}

#[test]
fn every_platform_has_its_call() {
    let egl = table(true, true);
    let all = names(&[
        "EGL_KHR_platform_gbm",
        "EGL_MESA_platform_gbm",
        "EGL_KHR_platform_wayland",
        "EGL_EXT_platform_wayland",
        "EGL_KHR_platform_android",
        "EGL_EXT_platform_device",
    ]);
    let call = |nd: RawDisplay| Display::get_native_display(&all, &egl, &nd).unwrap();
    assert_eq!(
        call(RawDisplay::Gbm { gbm_device: 3 }),
        DisplayCall::Platform { platform: ffi::PLATFORM_GBM_KHR, native_display: 3, screen: None }
    );
    assert_eq!(
        call(RawDisplay::Wayland { wl_display: 4 }),
        DisplayCall::Platform {
            platform: ffi::PLATFORM_WAYLAND_KHR,
            native_display: 4,
            screen: None
        }
    );
    assert_eq!(
        call(RawDisplay::Android),
        DisplayCall::Platform {
            platform: ffi::PLATFORM_ANDROID_KHR,
            native_display: ffi::DEFAULT_DISPLAY,
            screen: None
        }
    );
    assert_eq!(
        call(RawDisplay::EGLExtDevice { egl_device_ext: 5 }),
        DisplayCall::Platform {
            platform: ffi::PLATFORM_DEVICE_EXT,
            native_display: 5,
            screen: None
        }
    );
    assert_eq!(
        call(RawDisplay::Windows { hwnd: Some(6) }),
        DisplayCall::Legacy { native_display: 6 }
    );
    assert_eq!(
        call(RawDisplay::Windows { hwnd: None }),
        DisplayCall::Legacy { native_display: ffi::DEFAULT_DISPLAY }
    );

    let suffixed = names(&["EGL_MESA_platform_gbm", "EGL_EXT_platform_wayland"]);
    let call = |nd: RawDisplay| Display::get_native_display(&suffixed, &egl, &nd).unwrap();
    assert_eq!(
        call(RawDisplay::Gbm { gbm_device: 3 }),
        DisplayCall::PlatformExt {
            platform: ffi::PLATFORM_GBM_KHR,
            native_display: 3,
            screen: None
        }
    );
    assert_eq!(
        call(RawDisplay::Wayland { wl_display: 4 }),
        DisplayCall::PlatformExt {
            platform: ffi::PLATFORM_WAYLAND_EXT,
            native_display: 4,
            screen: None
        }
    );

    let none = names(&[]);
    let call = |nd: RawDisplay| Display::get_native_display(&none, &egl, &nd).unwrap();
    assert_eq!(call(RawDisplay::Gbm { gbm_device: 3 }), DisplayCall::Legacy { native_display: 3 });
    assert_eq!(
        call(RawDisplay::Wayland { wl_display: 4 }),
        DisplayCall::Legacy { native_display: 4 }
    );
    assert_eq!(
        call(RawDisplay::Android),
        DisplayCall::Legacy { native_display: ffi::DEFAULT_DISPLAY }
    );
    assert_eq!(
        call(RawDisplay::EGLExtDevice { egl_device_ext: 5 }),
        DisplayCall::Legacy { native_display: 5 }
    );
}

#[test]
fn unknown_display_category_is_not_supported() {
    let err = Display::new(Some("EGL_KHR_platform_x11"), &table(true, true), &RawDisplay::Other)
        .unwrap_err();
    assert_eq!(err.kind(), ErrorType::NotSupported(Unsupported::DisplayType));
}

#[test]
fn null_client_extensions_are_an_empty_set() {
    // No client extensions: the legacy call is taken although the entry
    // point is loaded.
    let acquiring =
        Display::new(None, &table(true, true), &RawDisplay::Wayland { wl_display: 9 }).unwrap();
    assert_eq!(acquiring.call(), DisplayCall::Legacy { native_display: 9 });

    let acquiring = Display::new(
        Some("EGL_EXT_platform_base EGL_KHR_platform_wayland"),
        &table(true, true),
        &RawDisplay::Wayland { wl_display: 9 },
    )
    .unwrap();
    assert_eq!(
        acquiring.call(),
        DisplayCall::Platform {
            platform: ffi::PLATFORM_WAYLAND_KHR,
            native_display: 9,
            screen: None
        }
    );
}

#[test]
fn no_display_is_an_os_error() {
    let acquiring =
        Display::new(None, &table(true, true), &RawDisplay::Wayland { wl_display: 9 }).unwrap();
    let err = acquiring.acquired(ffi::NO_DISPLAY, 0x3008).unwrap_err();
    assert_eq!(
        err.kind(),
        ErrorType::OsError(OsError::Native { call: NativeCall::GetDisplay, code: 0x3008 })
    );
}

#[test]
fn failed_initialisation_is_an_os_error() {
    let acquiring =
        Display::new(None, &table(true, true), &RawDisplay::Wayland { wl_display: 9 }).unwrap();
    let initializing = acquiring.acquired(0x7000, ffi::SUCCESS).unwrap();
    assert_eq!(initializing.display(), 0x7000);
    let err = initializing.initialized(Err(0x3001)).unwrap_err();
    assert_eq!(
        err.kind(),
        ErrorType::OsError(OsError::Native { call: NativeCall::Initialize, code: 0x3001 })
    );
    assert_eq!(Display::get_egl_version(Ok((1, 4))).unwrap(), (1, 4));
}

#[test]
fn old_protocol_has_no_display_extensions() {
    let display = open((1, 1), Some("EGL_EXT_client_extensions"), "never asked");
    assert_eq!(display.egl_version(), (1, 1));
    assert_eq!(display.handle(), 0x7000);
    assert!(!display.has_extension("never"));
    assert!(!display.has_extension("EGL_EXT_client_extensions"));
    assert!(display.has_client_extension("EGL_EXT_client_extensions"));
}

#[test]
fn display_extensions_replace_client_extensions() {
    let display = open((1, 4), Some("EGL_EXT_client_extensions"), "EGL_KHR_create_context");
    assert!(display.has_extension("EGL_KHR_create_context"));
    assert!(!display.has_extension("EGL_EXT_client_extensions"));
    assert!(display.has_client_extension("EGL_EXT_client_extensions"));
    assert!(!display.has_client_extension("EGL_KHR_create_context"));
}

#[test]
fn null_display_extensions_are_an_os_error() {
    let acquiring =
        Display::new(None, &table(true, true), &RawDisplay::Wayland { wl_display: 9 }).unwrap();
    let initializing = acquiring.acquired(0x7000, ffi::SUCCESS).unwrap();
    match initializing.initialized(Ok((1, 2))).unwrap() {
        Initialized::Query(querying) => {
            assert_eq!(querying.display(), 0x7000);
            let err = querying.queried(None, 0x3008).unwrap_err();
            assert_eq!(
                err.kind(),
                ErrorType::OsError(OsError::Native { call: NativeCall::QueryString, code: 0x3008 })
            );
        }
        Initialized::Ready(_) => panic!("protocol 1.2 has display extensions"),
    }
}

#[test]
fn sharing_a_display_keeps_its_value() {
    let display = open((1, 5), None, "EGL_KHR_gl_colorspace");
    let other = Display::share(&display);
    assert!(Arc::ptr_eq(&display, &other));
    assert_eq!(other.egl_version(), (1, 5));
    assert!(other.has_extension("EGL_KHR_gl_colorspace"));
}

#[test]
fn desktop_gl_is_bound_from_1_4() {
    assert_eq!(Display::bind_api_call(Api::OpenGl, (1, 4)), BindApi::Bind(ffi::OPENGL_API));
    assert_eq!(Display::bind_api_call(Api::OpenGl, (1, 3)), BindApi::Refuse);
    assert_eq!(Display::bind_api_call(Api::OpenGlEs, (1, 2)), BindApi::Bind(ffi::OPENGL_ES_API));
    assert_eq!(Display::bind_api_call(Api::OpenGlEs, (1, 1)), BindApi::Skip);
    assert_eq!(Display::bind_api_call(Api::WebGl, (1, 5)), BindApi::Refuse);
}

#[test]
fn unbound_api_is_a_version_error() {
    assert!(Display::bind_api(Api::OpenGl, (1, 4), true).is_ok());
    assert!(Display::bind_api(Api::OpenGlEs, (1, 1), false).is_ok());
    for (api, version, bound) in [
        (Api::OpenGl, (1, 4), false),
        (Api::OpenGl, (1, 3), true),
        (Api::OpenGlEs, (1, 2), false),
        (Api::WebGl, (1, 5), true),
    ] {
        let err = Display::bind_api(api, version, bound).unwrap_err();
        assert_eq!(err.kind(), ErrorType::VersionNotSupported);
        assert!(err.reasons().is_empty());
    }
}
