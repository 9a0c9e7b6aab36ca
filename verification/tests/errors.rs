use egl_context::error::{to_hex, Error, ErrorType, NativeCall, OsError, Unsupported};

#[test]
fn hex_has_no_leading_zeros() {
    assert_eq!(to_hex(0), "0");
    assert_eq!(to_hex(9), "9");
    assert_eq!(to_hex(10), "a");
    assert_eq!(to_hex(15), "f");
    assert_eq!(to_hex(16), "10");
    assert_eq!(to_hex(0x300e), "300e");
    assert_eq!(to_hex(0xdead_beef), "deadbeef");
    assert_eq!(to_hex(u64::MAX), "ffffffffffffffff");
    for n in [0u64, 1, 255, 256, 4095, 0x3004, 0x1234_5678_9abc_def0] {
        assert_eq!(to_hex(n), format!("{:x}", n));
    }
}

#[test]
fn native_calls_have_names() {
    assert_eq!(NativeCall::GetDisplay.symbol(), "eglGetDisplay");
    assert_eq!(NativeCall::SwapBuffersWithDamage.symbol(), "eglSwapBuffersWithDamageKHR");
    assert_eq!(NativeCall::MakeCurrent.symbol(), "eglMakeCurrent");
}

#[test]
fn os_errors_name_call_and_code() {
    assert_eq!(
        OsError::Native { call: NativeCall::MakeCurrent, code: 0x3002 }.message(),
        "eglMakeCurrent failed with 0x3002"
    );
    assert_eq!(
        OsError::Native { call: NativeCall::ChooseConfig, code: 0 }.message(),
        "eglChooseConfig failed with 0x0"
    );
    assert_eq!(
        OsError::ConfigAttrib { config: 0x55aa, code: 0x3004 }.message(),
        "eglGetConfigAttrib failed for 0x55aa with 0x3004"
    );
    assert_eq!(
        OsError::SwapIntervalBelowMinimum { config: 0x10 }.message(),
        "desired swap interval smaller than minimum for 0x10"
    );
    assert_eq!(
        OsError::SwapIntervalAboveMaximum { config: 0xff }.message(),
        "desired swap interval bigger than maximum for 0xff"
    );
}

#[test]
fn every_kind_has_its_words() {
    let cases = [
        (ErrorType::NotSupported(Unsupported::DisplayType), "display type not supported"),
        (ErrorType::NotSupported(Unsupported::Surfaceless), "EGL surfaceless not supported"),
        (ErrorType::NotSupported(Unsupported::BufferDamage), "buffer damage not supported"),
        (ErrorType::NotSupported(Unsupported::Library), "EGL library not found"),
        (ErrorType::VersionNotSupported, "OpenGL version not supported"),
        (ErrorType::RobustnessNotSupported, "robustness not supported"),
        (ErrorType::AdaptiveSwapControlNotSupported, "adaptive swap control not supported"),
        (ErrorType::FlushControlNotSupported, "flush control not supported"),
        (ErrorType::NoAvailableConfig, "no available config"),
        (ErrorType::ContextLost, "context lost"),
        (
            ErrorType::OsError(OsError::Native { call: NativeCall::Initialize, code: 0x3001 }),
            "eglInitialize failed with 0x3001",
        ),
    ];
    for (kind, words) in cases {
        assert_eq!(kind.message(), words);
        assert_eq!(Error::new(kind).kind().message(), words);
    }
}
