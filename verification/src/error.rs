//! The errors that the crate reports.

use vstd::prelude::*;
use vstd::string::StringExecFns;

verus! {

/// A native entry point whose failure is reported.
#[derive(Clone, Copy, Debug, PartialEq, Eq, Structural)]
pub enum NativeCall {
    GetDisplay,
    Initialize,
    QueryString,
    ChooseConfig,
    GetConfigAttrib,
    CreateContext,
    MakeCurrent,
    SwapInterval,
    CreateWindowSurface,
    CreatePbufferSurface,
    SwapBuffers,
    SwapBuffersWithDamage,
}

/// A failure on the native side.
#[derive(Clone, Copy, Debug, PartialEq, Eq, Structural)]
pub enum OsError {
    /// `call` failed and the native error query answered `code`.
    Native { call: NativeCall, code: u32 },
    /// An attribute of `config` could not be read; the native error query
    /// answered `code`.
    ConfigAttrib { config: usize, code: u32 },
    /// The desired swap interval is smaller than the minimum of `config`.
    SwapIntervalBelowMinimum { config: usize },
    /// The desired swap interval is bigger than the maximum of `config`.
    SwapIntervalAboveMaximum { config: usize },
}

/// A capability that the display or the entry-point table lacks.
#[derive(Clone, Copy, Debug, PartialEq, Eq, Structural)]
pub enum Unsupported {
    /// The category of native display is not one this crate can open.
    DisplayType,
    /// Contexts cannot be made current without a surface.
    Surfaceless,
    /// The swap-with-damage entry point is not loaded.
    BufferDamage,
    /// The EGL library could not be loaded.
    Library,
}

/// What went wrong.
#[derive(Clone, Copy, Debug, PartialEq, Eq, Structural)]
pub enum ErrorType {
    /// A requested capability is absent.
    NotSupported(Unsupported),
    /// The API and version asked for were rejected.
    VersionNotSupported,
    /// A strict robustness policy was asked for without backing capability.
    RobustnessNotSupported,
    AdaptiveSwapControlNotSupported,
    FlushControlNotSupported,
    /// Config selection ran out of candidates.
    NoAvailableConfig,
    /// The native side signalled that the context was lost.
    ContextLost,
    /// Any other native failure.
    OsError(OsError),
}

/// The mathematical value of an [`Error`]: what it reports first, and the
/// reasons that were added to it, oldest first.
pub struct Failure {
    pub kind: ErrorType,
    pub reasons: Seq<ErrorType>,
}

impl Failure {
    /// A failure with no added reason.
    pub open spec fn single(kind: ErrorType) -> Failure {
        Failure { kind, reasons: Seq::empty() }
    }

    /// Everything this failure reports, its own kind first.
    pub open spec fn flat(self) -> Seq<ErrorType> {
        seq![self.kind] + self.reasons
    }

    /// This failure with everything `other` reports added as reasons.
    pub open spec fn append(self, other: Failure) -> Failure {
        Failure { kind: self.kind, reasons: self.reasons + other.flat() }
    }

    /// This failure with one more reason.
    pub open spec fn with(self, reason: ErrorType) -> Failure {
        Failure { kind: self.kind, reasons: self.reasons.push(reason) }
    }
}

/// An error, possibly carrying the reasons that led to it.
///
/// Config selection collects one reason for every candidate it drops, so
/// that a caller sees why nothing matched.  Every other operation reports a
/// single kind with no reasons.
#[derive(Debug)]
pub struct Error {
    kind: ErrorType,
    reasons: Vec<ErrorType>,
}

impl View for Error {
    type V = Failure;

    closed spec fn view(&self) -> Failure {
        Failure { kind: self.kind, reasons: self.reasons@ }
    }
}

impl Error {
    /// An error of the given kind with no reasons.
    pub fn new(kind: ErrorType) -> (e: Error)
        ensures
            e@ == Failure::single(kind),
    {
        Error { kind, reasons: Vec::new() }
    }

    /// An OS-level error for a native call that failed with `code`.
    pub fn native(call: NativeCall, code: u32) -> (e: Error)
        ensures
            e@ == Failure::single(ErrorType::OsError(OsError::Native { call, code })),
    {
        Error::new(ErrorType::OsError(OsError::Native { call, code }))
    }

    /// What the error reports first.
    pub fn kind(&self) -> (k: ErrorType)
        ensures
            k == self@.kind,
    {
        self.kind
    }

    /// The reasons added so far, oldest first.
    pub fn reasons(&self) -> (r: &Vec<ErrorType>)
        ensures
            r@ == self@.reasons,
    {
        &self.reasons
    }

    /// Adds one reason.
    pub fn push(&mut self, reason: ErrorType)
        ensures
            final(self)@ == old(self)@.with(reason),
    {
        self.reasons.push(reason);
    }

    /// Adds `other`, with the reasons it carries, to the reasons of `self`.
    pub fn append(&mut self, other: &Error)
        ensures
            final(self)@ == old(self)@.append(other@),
    {
        self.reasons.push(other.kind);
        let n: usize = other.reasons.len();
        let mut i: usize = 0;
        while i < n
            invariant
                i <= n,
                n == other.reasons@.len(),
                self.kind == old(self).kind,
                self.reasons@ == old(self).reasons@ + seq![other.kind] + other.reasons@.subrange(
                    0,
                    i as int,
                ),
            decreases n - i,
        {
            self.reasons.push(other.reasons[i]);
            i += 1;
        }
        assert(self.reasons@ == old(self).reasons@ + other@.flat());
    }

    /// A copy of this error.
    pub fn duplicate(&self) -> (e: Error)
        ensures
            e@ == self@,
    {
        let mut e = Error::new(self.kind);
        let n: usize = self.reasons.len();
        let mut i: usize = 0;
        while i < n
            invariant
                i <= n,
                n == self.reasons@.len(),
                e.kind == self.kind,
                e.reasons@ == self.reasons@.subrange(0, i as int),
            decreases n - i,
        {
            e.reasons.push(self.reasons[i]);
            i += 1;
        }
        assert(self.reasons@.subrange(0, n as int) == self.reasons@);
        e
    }
}

/// The digit of value `d` in base sixteen, as text.
pub open spec fn hex_digit(d: int) -> Seq<char> {
    if d == 0 {
        "0"@
    } else if d == 1 {
        "1"@
    } else if d == 2 {
        "2"@
    } else if d == 3 {
        "3"@
    } else if d == 4 {
        "4"@
    } else if d == 5 {
        "5"@
    } else if d == 6 {
        "6"@
    } else if d == 7 {
        "7"@
    } else if d == 8 {
        "8"@
    } else if d == 9 {
        "9"@
    } else if d == 10 {
        "a"@
    } else if d == 11 {
        "b"@
    } else if d == 12 {
        "c"@
    } else if d == 13 {
        "d"@
    } else if d == 14 {
        "e"@
    } else {
        "f"@
    }
}

/// The number `n` in base sixteen, in lower case, without leading zeros.
pub open spec fn lower_hex(n: nat) -> Seq<char>
    decreases n,
{
    if n < 16 {
        hex_digit(n as int)
    } else {
        lower_hex(n / 16) + hex_digit((n % 16) as int)
    }
}

/// The digit of value `d` in base sixteen, as text.
fn digit(d: u64) -> (s: &'static str)
    requires
        d < 16,
    ensures
        s@ == hex_digit(d as int),
{
    if d == 0 {
        "0"
    } else if d == 1 {
        "1"
    } else if d == 2 {
        "2"
    } else if d == 3 {
        "3"
    } else if d == 4 {
        "4"
    } else if d == 5 {
        "5"
    } else if d == 6 {
        "6"
    } else if d == 7 {
        "7"
    } else if d == 8 {
        "8"
    } else if d == 9 {
        "9"
    } else if d == 10 {
        "a"
    } else if d == 11 {
        "b"
    } else if d == 12 {
        "c"
    } else if d == 13 {
        "d"
    } else if d == 14 {
        "e"
    } else {
        "f"
    }
}

/// The number `n` in base sixteen, in lower case, without leading zeros.
pub fn to_hex(n: u64) -> (s: String)
    ensures
        s@ == lower_hex(n as nat),
    decreases n,
{
    if n < 16 {
        String::from_str(digit(n))
    } else {
        to_hex(n / 16).concat(digit(n % 16))
    }
}

impl NativeCall {
    /// The name of the native function.
    pub open spec fn name(self) -> &'static str {
        match self {
            NativeCall::GetDisplay => "eglGetDisplay",
            NativeCall::Initialize => "eglInitialize",
            NativeCall::QueryString => "eglQueryString",
            NativeCall::ChooseConfig => "eglChooseConfig",
            NativeCall::GetConfigAttrib => "eglGetConfigAttrib",
            NativeCall::CreateContext => "eglCreateContext",
            NativeCall::MakeCurrent => "eglMakeCurrent",
            NativeCall::SwapInterval => "eglSwapInterval",
            NativeCall::CreateWindowSurface => "eglCreateWindowSurface",
            NativeCall::CreatePbufferSurface => "eglCreatePbufferSurface",
            NativeCall::SwapBuffers => "eglSwapBuffers",
            NativeCall::SwapBuffersWithDamage => "eglSwapBuffersWithDamageKHR",
        }
    }

    /// The name of the native function.
    pub fn symbol(&self) -> (s: &'static str)
        ensures
            s@ == self.name()@,
    {
        match *self {
            NativeCall::GetDisplay => "eglGetDisplay",
            NativeCall::Initialize => "eglInitialize",
            NativeCall::QueryString => "eglQueryString",
            NativeCall::ChooseConfig => "eglChooseConfig",
            NativeCall::GetConfigAttrib => "eglGetConfigAttrib",
            NativeCall::CreateContext => "eglCreateContext",
            NativeCall::MakeCurrent => "eglMakeCurrent",
            NativeCall::SwapInterval => "eglSwapInterval",
            NativeCall::CreateWindowSurface => "eglCreateWindowSurface",
            NativeCall::CreatePbufferSurface => "eglCreatePbufferSurface",
            NativeCall::SwapBuffers => "eglSwapBuffers",
            NativeCall::SwapBuffersWithDamage => "eglSwapBuffersWithDamageKHR",
        }
    }
}

impl OsError {
    /// The failure in words: the native function or the config concerned,
    /// and the native error in base sixteen.
    pub open spec fn text(self) -> Seq<char> {
        match self {
            OsError::Native { call, code } => call.name()@ + " failed with 0x"@ + lower_hex(
                code as nat,
            ),
            OsError::ConfigAttrib { config, code } => "eglGetConfigAttrib failed for 0x"@
                + lower_hex(config as nat) + " with 0x"@ + lower_hex(code as nat),
            OsError::SwapIntervalBelowMinimum { config } =>
                "desired swap interval smaller than minimum for 0x"@ + lower_hex(config as nat),
            OsError::SwapIntervalAboveMaximum { config } =>
                "desired swap interval bigger than maximum for 0x"@ + lower_hex(config as nat),
        }
    }

    /// The failure in words.
    pub fn message(&self) -> (s: String)
        ensures
            s@ == self.text(),
    {
        match *self {
            OsError::Native { call, code } => {
                let code = to_hex(code as u64);
                String::from_str(call.symbol()).concat(" failed with 0x").concat(code.as_str())
            },
            OsError::ConfigAttrib { config, code } => {
                let config = to_hex(config as u64);
                let code = to_hex(code as u64);
                String::from_str("eglGetConfigAttrib failed for 0x").concat(
                    config.as_str(),
                ).concat(" with 0x").concat(code.as_str())
            },
            OsError::SwapIntervalBelowMinimum { config } => {
                let config = to_hex(config as u64);
                String::from_str("desired swap interval smaller than minimum for 0x").concat(
                    config.as_str(),
                )
            },
            OsError::SwapIntervalAboveMaximum { config } => {
                let config = to_hex(config as u64);
                String::from_str("desired swap interval bigger than maximum for 0x").concat(
                    config.as_str(),
                )
            },
        }
    }
}

impl ErrorType {
    /// The error in words.
    pub open spec fn text(self) -> Seq<char> {
        match self {
            ErrorType::NotSupported(Unsupported::DisplayType) => "display type not supported"@,
            ErrorType::NotSupported(Unsupported::Surfaceless) => "EGL surfaceless not supported"@,
            ErrorType::NotSupported(Unsupported::BufferDamage) => "buffer damage not supported"@,
            ErrorType::NotSupported(Unsupported::Library) => "EGL library not found"@,
            ErrorType::VersionNotSupported => "OpenGL version not supported"@,
            ErrorType::RobustnessNotSupported => "robustness not supported"@,
            ErrorType::AdaptiveSwapControlNotSupported => "adaptive swap control not supported"@,
            ErrorType::FlushControlNotSupported => "flush control not supported"@,
            ErrorType::NoAvailableConfig => "no available config"@,
            ErrorType::ContextLost => "context lost"@,
            ErrorType::OsError(os) => os.text(),
        }
    }

    /// The error in words.
    pub fn message(&self) -> (s: String)
        ensures
            s@ == self.text(),
    {
        match *self {
            ErrorType::NotSupported(Unsupported::DisplayType) => String::from_str(
                "display type not supported",
            ),
            ErrorType::NotSupported(Unsupported::Surfaceless) => String::from_str(
                "EGL surfaceless not supported",
            ),
            ErrorType::NotSupported(Unsupported::BufferDamage) => String::from_str(
                "buffer damage not supported",
            ),
            ErrorType::NotSupported(Unsupported::Library) => String::from_str(
                "EGL library not found",
            ),
            ErrorType::VersionNotSupported => String::from_str("OpenGL version not supported"),
            ErrorType::RobustnessNotSupported => String::from_str("robustness not supported"),
            ErrorType::AdaptiveSwapControlNotSupported => String::from_str(
                "adaptive swap control not supported",
            ),
            ErrorType::FlushControlNotSupported => String::from_str("flush control not supported"),
            ErrorType::NoAvailableConfig => String::from_str("no available config"),
            ErrorType::ContextLost => String::from_str("context lost"),
            ErrorType::OsError(os) => os.message(),
        }
    }
}

} // verus!
