//! Opening a native display: which native call obtains it, the protocol
//! version, and the two sets of extensions.
//!
//! An extension name is kept as the bytes that the native side reported.

use crate::config::Api;
use crate::egl::table::{Egl, EntryPoint};
use crate::error::{Error, ErrorType, Failure, NativeCall, OsError, Unsupported};
use crate::ffi;
use std::sync::Arc;
use vstd::prelude::*;
use vstd::string::StringSliceAdditionalSpecFns;

verus! {

/// The byte that separates the names of an extension list.
pub const SEPARATOR: u8 = 0x20;

/// The place of the first separator in `s`, or the length of `s` where it
/// holds none.
pub open spec fn first_separator(s: Seq<u8>) -> int
    decreases s.len(),
{
    if s.len() == 0 || s[0] == SEPARATOR {
        0
    } else {
        1 + first_separator(s.drop_first())
    }
}

/// The names of an extension list: the pieces between its separators.  A
/// list of `n` separators has `n + 1` names, some of which may be empty.
pub open spec fn split_names(s: Seq<u8>) -> Seq<Seq<u8>>
    decreases s.len(),
{
    let i = first_separator(s);
    if 0 <= i < s.len() {
        seq![s.take(i)] + split_names(s.skip(i + 1))
    } else {
        seq![s]
    }
}

/// The names again as one list, a separator between each two.
pub open spec fn join_names(names: Seq<Seq<u8>>) -> Seq<u8>
    decreases names.len(),
{
    if names.len() == 0 {
        Seq::empty()
    } else if names.len() == 1 {
        names[0]
    } else {
        names[0] + seq![SEPARATOR] + join_names(names.drop_first())
    }
}

/// The byte strings that a list of vectors holds.
pub open spec fn names_of(v: Seq<Vec<u8>>) -> Seq<Seq<u8>> {
    Seq::new(v.len(), |i: int| v[i]@)
}

/// Where `k` is the place of the first separator of `s`, or its length where
/// there is none, `first_separator` finds it.
proof fn lemma_first_separator(s: Seq<u8>, k: int)
    requires
        0 <= k <= s.len(),
        forall|j: int| 0 <= j < k ==> s[j] != SEPARATOR,
        k == s.len() || s[k] == SEPARATOR,
    ensures
        first_separator(s) == k,
    decreases k,
{
    if k > 0 {
        lemma_first_separator(s.drop_first(), k - 1);
    }
}

/// The place that `first_separator` gives lies in `s` or at its end, no
/// separator stands before it, and one stands at it unless it is the end.
proof fn lemma_first_separator_is_first(s: Seq<u8>)
    ensures
        0 <= first_separator(s) <= s.len(),
        forall|j: int| 0 <= j < first_separator(s) ==> s[j] != SEPARATOR,
        first_separator(s) < s.len() ==> s[first_separator(s)] == SEPARATOR,
    decreases s.len(),
{
    if s.len() == 0 || s[0] == SEPARATOR {
    } else {
        let t = s.drop_first();
        lemma_first_separator_is_first(t);
        assert forall|j: int| 0 <= j < first_separator(s) implies s[j] != SEPARATOR by {
            if j > 0 {
                assert(s[j] == t[j - 1]);
            }
        }
    }
}

/// Splitting loses nothing and leaves no separator inside a name: the names
/// of a list, joined again, are the list, and no name holds a separator.
pub proof fn split_then_join(s: Seq<u8>)
    ensures
        join_names(split_names(s)) == s,
        split_names(s).len() >= 1,
        forall|n: int, j: int|
            0 <= n < split_names(s).len() && 0 <= j < split_names(s)[n].len()
                ==> split_names(s)[n][j] != SEPARATOR,
    decreases s.len(),
{
    lemma_first_separator_is_first(s);
    let i = first_separator(s);
    if 0 <= i < s.len() {
        let rest = s.skip(i + 1);
        split_then_join(rest);
        assert(split_names(s).drop_first() == split_names(rest));
    }
}

/// Whether `names` holds `name`.
pub open spec fn has_name(names: Seq<Seq<u8>>, name: Seq<u8>) -> bool {
    exists|i: int| 0 <= i < names.len() && names[i] == name
}

/// Whether two byte strings are the same.
pub fn same_bytes(a: &[u8], b: &[u8]) -> (r: bool)
    ensures
        r == (a@ == b@),
{
    if a.len() != b.len() {
        return false;
    }
    let n: usize = a.len();
    let mut i: usize = 0;
    while i < n
        invariant
            i <= n,
            n == a@.len(),
            n == b@.len(),
            forall|j: int| 0 <= j < i ==> a@[j] == b@[j],
        decreases n - i,
    {
        if a[i] != b[i] {
            return false;
        }
        i += 1;
    }
    assert(a@ =~= b@);
    true
}

/// Whether a list of names holds `name`.
pub fn contains_name(names: &Vec<Vec<u8>>, name: &str) -> (r: bool)
    ensures
        r == has_name(names_of(names@), name.spec_bytes()),
{
    let wanted = name.as_bytes();
    let n: usize = names.len();
    let mut i: usize = 0;
    while i < n
        invariant
            i <= n,
            n == names@.len(),
            wanted@ == name.spec_bytes(),
            forall|j: int| 0 <= j < i ==> names@[j]@ != name.spec_bytes(),
        decreases n - i,
    {
        if same_bytes(names[i].as_slice(), wanted) {
            assert(names_of(names@)[i as int] == name.spec_bytes());
            return true;
        }
        i += 1;
    }
    false
}

/// The names of an extension list as the native side reports it.
pub fn split_extensions(text: &str) -> (names: Vec<Vec<u8>>)
    ensures
        names_of(names@) == split_names(text.spec_bytes()),
{
    let bytes = text.as_bytes();
    let ghost b = bytes@;
    let n: usize = bytes.len();
    let mut out: Vec<Vec<u8>> = Vec::new();
    let mut cur: Vec<u8> = Vec::new();
    let ghost mut start: int = 0;
    let mut i: usize = 0;
    assert(b.skip(0) == b);
    while i < n
        invariant
            i <= n,
            n == b.len(),
            b == bytes@,
            0 <= start <= i,
            cur@ == b.subrange(start, i as int),
            forall|j: int| start <= j < i ==> b[j] != SEPARATOR,
            split_names(b) == names_of(out@) + split_names(b.skip(start)),
        decreases n - i,
    {
        if bytes[i] == SEPARATOR {
            proof {
                let tail = b.skip(start);
                let k = i as int - start;
                lemma_first_separator(tail, k);
                assert(tail.take(k) == cur@);
                assert(tail.skip(k + 1) == b.skip(i as int + 1));
            }
            out.push(cur);
            cur = Vec::new();
            proof {
                start = i as int + 1;
            }
        } else {
            cur.push(bytes[i]);
        }
        i += 1;
    }
    proof {
        let tail = b.skip(start);
        let k = n as int - start;
        lemma_first_separator(tail, k);
    }
    out.push(cur);
    out
}

/// The protocol version that initialising a display reports: major, minor.
pub type EglVersion = (i32, i32);

/// Whether `version` is `major.minor` or later.
pub open spec fn at_least(version: EglVersion, major: i32, minor: i32) -> bool {
    version.0 > major || (version.0 == major && version.1 >= minor)
}

/// Whether `version` is `major.minor` or later.
pub fn version_at_least(version: EglVersion, major: i32, minor: i32) -> (b: bool)
    ensures
        b == at_least(version, major, minor),
{
    version.0 > major || (version.0 == major && version.1 >= minor)
}

/// The native display that the windowing toolkit hands over, one variant for
/// each category of platform.
#[derive(Clone, Copy, Debug, PartialEq, Eq)]
pub enum RawDisplay {
    Xlib { display: usize, screen: Option<i32> },
    Gbm { gbm_device: usize },
    Wayland { wl_display: usize },
    Android,
    EGLExtDevice { egl_device_ext: usize },
    Windows { hwnd: Option<usize> },
    /// A category that EGL cannot open.
    Other,
}

/// The native call that obtains the display.
#[derive(Clone, Copy, Debug, PartialEq, Eq)]
pub enum DisplayCall {
    /// `eglGetPlatformDisplay`, with the X11 screen where one is named.
    Platform { platform: u32, native_display: usize, screen: Option<i32> },
    /// `eglGetPlatformDisplayEXT`, with the X11 screen where one is named.
    PlatformExt { platform: u32, native_display: usize, screen: Option<i32> },
    /// `eglGetDisplay`.
    Legacy { native_display: usize },
}

impl DisplayCall {
    /// The entry point that the call goes to.
    pub open spec fn target(self) -> EntryPoint {
        match self {
            DisplayCall::Platform { .. } => EntryPoint::GetPlatformDisplay,
            DisplayCall::PlatformExt { .. } => EntryPoint::GetPlatformDisplayEXT,
            DisplayCall::Legacy { .. } => EntryPoint::GetDisplay,
        }
    }

    /// The attribute list of the call; `None` stands for the null list.
    pub open spec fn attribs(self) -> Option<Seq<i32>> {
        match self {
            DisplayCall::Platform { screen: Some(screen), .. } => Some(
                seq![ffi::PLATFORM_X11_SCREEN_KHR, screen, ffi::NONE],
            ),
            DisplayCall::PlatformExt { screen: Some(screen), .. } => Some(
                seq![ffi::PLATFORM_X11_SCREEN_EXT, screen, ffi::NONE],
            ),
            _ => None,
        }
    }

    /// The entry point that the call goes to.
    pub fn entry_point(&self) -> (e: EntryPoint)
        ensures
            e == self.target(),
    {
        match *self {
            DisplayCall::Platform { .. } => EntryPoint::GetPlatformDisplay,
            DisplayCall::PlatformExt { .. } => EntryPoint::GetPlatformDisplayEXT,
            DisplayCall::Legacy { .. } => EntryPoint::GetDisplay,
        }
    }

    /// The attribute list of the call: the screen, where one is named, and
    /// the terminator; else nothing, for the null list.
    pub fn attrib_list(&self) -> (list: Option<Vec<i32>>)
        ensures
            list is Some <==> self.attribs() is Some,
            list matches Some(v) ==> self.attribs() == Some(v@),
    {
        match *self {
            DisplayCall::Platform { screen: Some(screen), .. } => {
                let mut v: Vec<i32> = Vec::new();
                v.push(ffi::PLATFORM_X11_SCREEN_KHR);
                v.push(screen);
                v.push(ffi::NONE);
                Some(v)
            },
            DisplayCall::PlatformExt { screen: Some(screen), .. } => {
                let mut v: Vec<i32> = Vec::new();
                v.push(ffi::PLATFORM_X11_SCREEN_EXT);
                v.push(screen);
                v.push(ffi::NONE);
                Some(v)
            },
            _ => None,
        }
    }
}

/// The call that obtains the display `nd`, where the client extensions are
/// `client`, and `platform` and `platform_ext` tell whether the two
/// platform-display entry points are loaded.
///
/// A platform-display entry point is taken only where the client extension
/// for the platform is advertised and the entry point is loaded as well: the
/// generic one first, the suffixed one second.  Otherwise the legacy call is
/// taken, which cannot name an X11 screen.  `None` means that the display
/// cannot be opened.
pub open spec fn display_call(
    client: Seq<Seq<u8>>,
    platform: bool,
    platform_ext: bool,
    nd: RawDisplay,
) -> Option<DisplayCall> {
    match nd {
        RawDisplay::Xlib { display, screen } => {
            if platform && has_name(client, "EGL_KHR_platform_x11".spec_bytes()) {
                Some(
                    DisplayCall::Platform {
                        platform: ffi::PLATFORM_X11_KHR,
                        native_display: display,
                        screen,
                    },
                )
            } else if platform_ext && has_name(client, "EGL_EXT_platform_x11".spec_bytes()) {
                Some(
                    DisplayCall::PlatformExt {
                        platform: ffi::PLATFORM_X11_EXT,
                        native_display: display,
                        screen,
                    },
                )
            } else if screen is None {
                Some(DisplayCall::Legacy { native_display: display })
            } else {
                None
            }
        },
        RawDisplay::Gbm { gbm_device } => {
            if platform && has_name(client, "EGL_KHR_platform_gbm".spec_bytes()) {
                Some(
                    DisplayCall::Platform {
                        platform: ffi::PLATFORM_GBM_KHR,
                        native_display: gbm_device,
                        screen: None,
                    },
                )
            } else if platform_ext && has_name(client, "EGL_MESA_platform_gbm".spec_bytes()) {
                Some(
                    DisplayCall::PlatformExt {
                        platform: ffi::PLATFORM_GBM_KHR,
                        native_display: gbm_device,
                        screen: None,
                    },
                )
            } else {
                Some(DisplayCall::Legacy { native_display: gbm_device })
            }
        },
        RawDisplay::Wayland { wl_display } => {
            if platform && has_name(client, "EGL_KHR_platform_wayland".spec_bytes()) {
                Some(
                    DisplayCall::Platform {
                        platform: ffi::PLATFORM_WAYLAND_KHR,
                        native_display: wl_display,
                        screen: None,
                    },
                )
            } else if platform_ext && has_name(client, "EGL_EXT_platform_wayland".spec_bytes()) {
                Some(
                    DisplayCall::PlatformExt {
                        platform: ffi::PLATFORM_WAYLAND_EXT,
                        native_display: wl_display,
                        screen: None,
                    },
                )
            } else {
                Some(DisplayCall::Legacy { native_display: wl_display })
            }
        },
        RawDisplay::Android => {
            if platform && has_name(client, "EGL_KHR_platform_android".spec_bytes()) {
                Some(
                    DisplayCall::Platform {
                        platform: ffi::PLATFORM_ANDROID_KHR,
                        native_display: ffi::DEFAULT_DISPLAY,
                        screen: None,
                    },
                )
            } else {
                Some(DisplayCall::Legacy { native_display: ffi::DEFAULT_DISPLAY })
            }
        },
        RawDisplay::EGLExtDevice { egl_device_ext } => {
            if platform && has_name(client, "EGL_EXT_platform_device".spec_bytes()) {
                Some(
                    DisplayCall::Platform {
                        platform: ffi::PLATFORM_DEVICE_EXT,
                        native_display: egl_device_ext,
                        screen: None,
                    },
                )
            } else {
                Some(DisplayCall::Legacy { native_display: egl_device_ext })
            }
        },
        RawDisplay::Windows { hwnd: Some(hwnd) } => Some(
            DisplayCall::Legacy { native_display: hwnd },
        ),
        RawDisplay::Windows { hwnd: None } => Some(
            DisplayCall::Legacy { native_display: ffi::DEFAULT_DISPLAY },
        ),
        RawDisplay::Other => None,
    }
}

/// What is to be done to make an API the current one of the thread.
#[derive(Clone, Copy, Debug, PartialEq, Eq, Structural)]
pub enum BindApi {
    /// `eglBindAPI` is called with this value.
    Bind(u32),
    /// Nothing is called: the protocol is older than API binding, and offers
    /// OpenGL ES alone.
    Skip,
    /// Nothing is called: the display cannot offer the API.
    Refuse,
}

/// What is to be done to make `api` the current API on a display of protocol
/// `version`: desktop OpenGL is bound from 1.4 on, OpenGL ES from 1.2 on and
/// taken for granted before, and nothing else can be had.
pub open spec fn bind_api_plan(api: Api, version: EglVersion) -> BindApi {
    match api {
        Api::OpenGl => if at_least(version, 1, 4) {
            BindApi::Bind(ffi::OPENGL_API)
        } else {
            BindApi::Refuse
        },
        Api::OpenGlEs => if at_least(version, 1, 2) {
            BindApi::Bind(ffi::OPENGL_ES_API)
        } else {
            BindApi::Skip
        },
        Api::WebGl => BindApi::Refuse,
    }
}

/// Whether `api` is the current API after the plan for it was carried out and
/// `eglBindAPI`, where it was called, answered `bound`.
pub open spec fn api_bound(api: Api, version: EglVersion, bound: bool) -> bool {
    match bind_api_plan(api, version) {
        BindApi::Bind(_) => bound,
        BindApi::Skip => true,
        BindApi::Refuse => false,
    }
}

/// The mathematical value of a [`Display`].
pub struct DisplayView {
    pub handle: usize,
    pub version: EglVersion,
    /// The extensions reported for the initialised display.
    pub extensions: Seq<Seq<u8>>,
    /// The extensions reported before any display was opened.
    pub client_extensions: Seq<Seq<u8>>,
}

impl DisplayView {
    /// Whether the initialised display reported the extension `name`.
    pub open spec fn has(self, name: &str) -> bool {
        has_name(self.extensions, name.spec_bytes())
    }
}

/// A connection to the native display server.
///
/// The native connection is never terminated: the native side hands out the
/// same connection to everybody who asks for the same native display and does
/// not count its users, so that terminating it here could pull it away from
/// somebody else.
#[derive(Debug)]
pub struct Display {
    display: usize,
    egl_version: EglVersion,
    extensions: Vec<Vec<u8>>,
    client_extensions: Vec<Vec<u8>>,
}

impl View for Display {
    type V = DisplayView;

    closed spec fn view(&self) -> DisplayView {
        DisplayView {
            handle: self.display,
            version: self.egl_version,
            extensions: names_of(self.extensions@),
            client_extensions: names_of(self.client_extensions@),
        }
    }
}

/// Calls `Arc::clone`, which hands out one more pointer to the same value
/// and leaves the value as it is.
#[verifier::external_body]
fn share_display(display: &Arc<Display>) -> (d: Arc<Display>)
    ensures
        d == *display,
{
    Arc::clone(display)
}

/// The display is being obtained: the native call [`Acquiring::call`] is to
/// be made.
#[derive(Debug)]
pub struct Acquiring {
    client_extensions: Vec<Vec<u8>>,
    call: DisplayCall,
}

/// The display was obtained and is to be initialised.
#[derive(Debug)]
pub struct Initializing {
    client_extensions: Vec<Vec<u8>>,
    display: usize,
}

/// The display is initialised and its extensions are to be queried.
#[derive(Debug)]
pub struct Querying {
    client_extensions: Vec<Vec<u8>>,
    display: usize,
    egl_version: EglVersion,
}

/// What follows the initialisation of a display.
#[derive(Debug)]
pub enum Initialized {
    /// The extensions of the display are to be queried.
    Query(Querying),
    /// The protocol is older than 1.2 and knows no display extensions: the
    /// display is ready.
    Ready(Arc<Display>),
}

impl Acquiring {
    /// The client extensions found before.
    pub closed spec fn client(&self) -> Seq<Seq<u8>> {
        names_of(self.client_extensions@)
    }

    /// The native call to make.
    pub closed spec fn planned(&self) -> DisplayCall {
        self.call
    }

    /// The native call to make.
    pub fn call(&self) -> (c: DisplayCall)
        ensures
            c == self.planned(),
    {
        self.call
    }

    /// Takes the handle that the native call returned, and `code`, the
    /// native error at that moment.  The "no display" sentinel is an
    /// OS-level error.
    pub fn acquired(self, handle: usize, code: u32) -> (r: Result<Initializing, Error>)
        ensures
            handle != ffi::NO_DISPLAY ==> (r matches Ok(next) && next.client() == self.client()
                && next.handle() == handle),
            handle == ffi::NO_DISPLAY ==> (r matches Err(e) && e@ == Failure::single(
                ErrorType::OsError(OsError::Native { call: NativeCall::GetDisplay, code }),
            )),
    {
        if handle == ffi::NO_DISPLAY {
            Err(Error::native(NativeCall::GetDisplay, code))
        } else {
            Ok(Initializing { client_extensions: self.client_extensions, display: handle })
        }
    }
}

impl Initializing {
    /// The client extensions found before.
    pub closed spec fn client(&self) -> Seq<Seq<u8>> {
        names_of(self.client_extensions@)
    }

    /// The display to initialise.
    pub closed spec fn handle(&self) -> usize {
        self.display
    }

    /// The display to initialise.
    pub fn display(&self) -> (d: usize)
        ensures
            d == self.handle(),
    {
        self.display
    }

    /// Takes what initialising the display answered: the protocol version,
    /// or the native error.  A failure is an OS-level error.  From protocol
    /// 1.2 on the extensions of the display are queried next; an older
    /// display has none.
    pub fn initialized(self, reply: Result<EglVersion, u32>) -> (r: Result<Initialized, Error>)
        ensures
            match reply {
                Ok(version) => if at_least(version, 1, 2) {
                    r matches Ok(Initialized::Query(q)) && q.client() == self.client()
                        && q.handle() == self.handle() && q.version() == version
                } else {
                    r matches Ok(Initialized::Ready(d)) && d@ == (DisplayView {
                        handle: self.handle(),
                        version,
                        extensions: Seq::empty(),
                        client_extensions: self.client(),
                    })
                },
                Err(code) => r matches Err(e) && e@ == Failure::single(
                    ErrorType::OsError(OsError::Native { call: NativeCall::Initialize, code }),
                ),
            },
    {
        match Display::get_egl_version(reply) {
            Err(e) => Err(e),
            Ok(version) => {
                if version_at_least(version, 1, 2) {
                    Ok(
                        Initialized::Query(
                            Querying {
                                client_extensions: self.client_extensions,
                                display: self.display,
                                egl_version: version,
                            },
                        ),
                    )
                } else {
                    let extensions: Vec<Vec<u8>> = Vec::new();
                    assert(names_of(extensions@) == Seq::<Seq<u8>>::empty());
                    Ok(
                        Initialized::Ready(
                            Arc::new(
                                Display {
                                    display: self.display,
                                    egl_version: version,
                                    extensions,
                                    client_extensions: self.client_extensions,
                                },
                            ),
                        ),
                    )
                }
            },
        }
    }
}

impl Querying {
    /// The client extensions found before.
    pub closed spec fn client(&self) -> Seq<Seq<u8>> {
        names_of(self.client_extensions@)
    }

    /// The display to query.
    pub closed spec fn handle(&self) -> usize {
        self.display
    }

    /// The protocol version of the display.
    pub closed spec fn version(&self) -> EglVersion {
        self.egl_version
    }

    /// The display to query.
    pub fn display(&self) -> (d: usize)
        ensures
            d == self.handle(),
    {
        self.display
    }

    /// Takes the extension list that the display reported, or nothing where
    /// the query returned null, with `code`, the native error at that
    /// moment.  Here a null answer is an OS-level error.
    pub fn queried(self, text: Option<&str>, code: u32) -> (r: Result<Arc<Display>, Error>)
        ensures
            match text {
                Some(list) => r matches Ok(d) && d@ == (DisplayView {
                    handle: self.handle(),
                    version: self.version(),
                    extensions: split_names(list.spec_bytes()),
                    client_extensions: self.client(),
                }),
                None => r matches Err(e) && e@ == Failure::single(
                    ErrorType::OsError(OsError::Native { call: NativeCall::QueryString, code }),
                ),
            },
    {
        match text {
            None => Err(Error::native(NativeCall::QueryString, code)),
            Some(list) => Ok(
                Arc::new(
                    Display {
                        display: self.display,
                        egl_version: self.egl_version,
                        extensions: split_extensions(list),
                        client_extensions: self.client_extensions,
                    },
                ),
            ),
        }
    }
}

impl Display {
    /// The client extensions, from what the extension query without a
    /// display answered.  A null answer means that the query is not
    /// supported, and gives no extensions.
    pub open spec fn client_names(text: Option<&str>) -> Seq<Seq<u8>> {
        match text {
            Some(list) => split_names(list.spec_bytes()),
            None => Seq::empty(),
        }
    }

    /// Starts opening the native display `nd`.
    ///
    /// `client_extensions` is what the extension query without a display
    /// answered, `None` for null.  The result holds the native call that
    /// obtains the display; a native display that no call can obtain is not
    /// supported.
    pub fn new(client_extensions: Option<&str>, egl: &Egl, nd: &RawDisplay) -> (r: Result<
        Acquiring,
        Error,
    >)
        ensures
            match display_call(
                Display::client_names(client_extensions),
                egl.loaded(EntryPoint::GetPlatformDisplay),
                egl.loaded(EntryPoint::GetPlatformDisplayEXT),
                *nd,
            ) {
                Some(call) => r matches Ok(next) && next.planned() == call && next.client()
                    == Display::client_names(client_extensions),
                None => r matches Err(e) && e@ == Failure::single(
                    ErrorType::NotSupported(Unsupported::DisplayType),
                ),
            },
    {
        let names = match client_extensions {
            Some(list) => split_extensions(list),
            None => {
                let v: Vec<Vec<u8>> = Vec::new();
                v
            },
        };
        match Display::get_native_display(&names, egl, nd) {
            Ok(call) => Ok(Acquiring { client_extensions: names, call }),
            Err(e) => Err(e),
        }
    }

    /// The native call that obtains the display `ndisp`.
    pub fn get_native_display(
        client_extensions: &Vec<Vec<u8>>,
        egl: &Egl,
        ndisp: &RawDisplay,
    ) -> (r: Result<DisplayCall, Error>)
        ensures
            match display_call(
                names_of(client_extensions@),
                egl.loaded(EntryPoint::GetPlatformDisplay),
                egl.loaded(EntryPoint::GetPlatformDisplayEXT),
                *ndisp,
            ) {
                Some(call) => r == Ok::<DisplayCall, Error>(call),
                None => r matches Err(e) && e@ == Failure::single(
                    ErrorType::NotSupported(Unsupported::DisplayType),
                ),
            },
    {
        let platform = egl.is_loaded(EntryPoint::GetPlatformDisplay);
        let platform_ext = egl.is_loaded(EntryPoint::GetPlatformDisplayEXT);
        match *ndisp {
            RawDisplay::Xlib { display, screen } => {
                if platform && contains_name(client_extensions, "EGL_KHR_platform_x11") {
                    Ok(
                        DisplayCall::Platform {
                            platform: ffi::PLATFORM_X11_KHR,
                            native_display: display,
                            screen,
                        },
                    )
                } else if platform_ext && contains_name(client_extensions, "EGL_EXT_platform_x11") {
                    Ok(
                        DisplayCall::PlatformExt {
                            platform: ffi::PLATFORM_X11_EXT,
                            native_display: display,
                            screen,
                        },
                    )
                } else if screen.is_none() {
                    Ok(DisplayCall::Legacy { native_display: display })
                } else {
                    Err(Error::new(ErrorType::NotSupported(Unsupported::DisplayType)))
                }
            },
            RawDisplay::Gbm { gbm_device } => {
                if platform && contains_name(client_extensions, "EGL_KHR_platform_gbm") {
                    Ok(
                        DisplayCall::Platform {
                            platform: ffi::PLATFORM_GBM_KHR,
                            native_display: gbm_device,
                            screen: None,
                        },
                    )
                } else if platform_ext && contains_name(
                    client_extensions,
                    "EGL_MESA_platform_gbm",
                ) {
                    Ok(
                        DisplayCall::PlatformExt {
                            platform: ffi::PLATFORM_GBM_KHR,
                            native_display: gbm_device,
                            screen: None,
                        },
                    )
                } else {
                    Ok(DisplayCall::Legacy { native_display: gbm_device })
                }
            },
            RawDisplay::Wayland { wl_display } => {
                if platform && contains_name(client_extensions, "EGL_KHR_platform_wayland") {
                    Ok(
                        DisplayCall::Platform {
                            platform: ffi::PLATFORM_WAYLAND_KHR,
                            native_display: wl_display,
                            screen: None,
                        },
                    )
                } else if platform_ext && contains_name(
                    client_extensions,
                    "EGL_EXT_platform_wayland",
                ) {
                    Ok(
                        DisplayCall::PlatformExt {
                            platform: ffi::PLATFORM_WAYLAND_EXT,
                            native_display: wl_display,
                            screen: None,
                        },
                    )
                } else {
                    Ok(DisplayCall::Legacy { native_display: wl_display })
                }
            },
            RawDisplay::Android => {
                if platform && contains_name(client_extensions, "EGL_KHR_platform_android") {
                    Ok(
                        DisplayCall::Platform {
                            platform: ffi::PLATFORM_ANDROID_KHR,
                            native_display: ffi::DEFAULT_DISPLAY,
                            screen: None,
                        },
                    )
                } else {
                    Ok(DisplayCall::Legacy { native_display: ffi::DEFAULT_DISPLAY })
                }
            },
            RawDisplay::EGLExtDevice { egl_device_ext } => {
                if platform && contains_name(client_extensions, "EGL_EXT_platform_device") {
                    Ok(
                        DisplayCall::Platform {
                            platform: ffi::PLATFORM_DEVICE_EXT,
                            native_display: egl_device_ext,
                            screen: None,
                        },
                    )
                } else {
                    Ok(DisplayCall::Legacy { native_display: egl_device_ext })
                }
            },
            RawDisplay::Windows { hwnd: Some(hwnd) } => Ok(
                DisplayCall::Legacy { native_display: hwnd },
            ),
            RawDisplay::Windows { hwnd: None } => Ok(
                DisplayCall::Legacy { native_display: ffi::DEFAULT_DISPLAY },
            ),
            RawDisplay::Other => Err(
                Error::new(ErrorType::NotSupported(Unsupported::DisplayType)),
            ),
        }
    }

    /// The protocol version, from what initialising the display answered: the
    /// version, or the native error, which makes an OS-level error.
    pub fn get_egl_version(reply: Result<EglVersion, u32>) -> (r: Result<EglVersion, Error>)
        ensures
            match reply {
                Ok(version) => r == Ok::<EglVersion, Error>(version),
                Err(code) => r matches Err(e) && e@ == Failure::single(
                    ErrorType::OsError(OsError::Native { call: NativeCall::Initialize, code }),
                ),
            },
    {
        match reply {
            Ok(version) => Ok(version),
            Err(code) => Err(Error::native(NativeCall::Initialize, code)),
        }
    }

    /// What is to be done to make `api` the current API of the thread.
    pub fn bind_api_call(api: Api, egl_version: EglVersion) -> (plan: BindApi)
        ensures
            plan == bind_api_plan(api, egl_version),
    {
        match api {
            Api::OpenGl => if version_at_least(egl_version, 1, 4) {
                BindApi::Bind(ffi::OPENGL_API)
            } else {
                BindApi::Refuse
            },
            Api::OpenGlEs => if version_at_least(egl_version, 1, 2) {
                BindApi::Bind(ffi::OPENGL_ES_API)
            } else {
                BindApi::Skip
            },
            Api::WebGl => BindApi::Refuse,
        }
    }

    /// Concludes making `api` the current API: `bound` is what `eglBindAPI`
    /// answered where [`Display::bind_api_call`] asked for it, and is not
    /// looked at otherwise.  An API that is not current afterwards is a
    /// version that is not supported.
    pub fn bind_api(api: Api, egl_version: EglVersion, bound: bool) -> (r: Result<(), Error>)
        ensures
            api_bound(api, egl_version, bound) ==> r is Ok,
            !api_bound(api, egl_version, bound) ==> (r matches Err(e) && e@ == Failure::single(
                ErrorType::VersionNotSupported,
            )),
    {
        let done = match Display::bind_api_call(api, egl_version) {
            BindApi::Bind(_) => bound,
            BindApi::Skip => true,
            BindApi::Refuse => false,
        };
        if done {
            Ok(())
        } else {
            Err(Error::new(ErrorType::VersionNotSupported))
        }
    }

    /// Another owner of the same display.
    pub fn share(display: &Arc<Display>) -> (d: Arc<Display>)
        ensures
            d == *display,
    {
        share_display(display)
    }

    /// The native handle.
    pub fn handle(&self) -> (h: usize)
        ensures
            h == self@.handle,
    {
        self.display
    }

    /// The protocol version.
    pub fn egl_version(&self) -> (v: EglVersion)
        ensures
            v == self@.version,
    {
        self.egl_version
    }

    /// Whether the initialised display reported the extension `e`.
    pub fn has_extension(&self, e: &str) -> (b: bool)
        ensures
            b == self@.has(e),
    {
        contains_name(&self.extensions, e)
    }

    /// Whether the extension `e` was reported before any display was opened.
    pub fn has_client_extension(&self, e: &str) -> (b: bool)
        ensures
            b == has_name(self@.client_extensions, e.spec_bytes()),
    {
        contains_name(&self.client_extensions, e)
    }
}

} // verus!
