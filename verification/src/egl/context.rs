//! Contexts: the attributes they are created with, and making them current.

use crate::config::{Api, ConfigAttribs, ConfigWrapper, ReleaseBehavior, Version};
use crate::context::{ContextBuilderWrapper, Robustness};
use crate::egl::config::{
    get_native_visual_id, native_visual_id_query, optional, pair, push_pair, AttribQuery, Config,
    ConfigView,
};
use crate::egl::display::{api_bound, at_least, version_at_least, Display, DisplayView};
use crate::egl::guard::{
    bind_failure, check_make_current, guard_destruction, guard_plan, unbind_answer, unbind_plan,
    BindRequest, NativeResult, ThreadBinding,
};
use crate::egl::surface::{interval_on_bind, Destruction, Surface};
use crate::error::{Error, ErrorType, Failure, NativeCall, OsError};
use crate::ffi;
use crate::surface::SurfaceTypeTrait;
use std::sync::Arc;
use vstd::prelude::*;
use vstd::string::StringSliceAdditionalSpecFns;

verus! {

/// Whether contexts are created with the extended attributes: from protocol
/// 1.5 on, and where the display has the extension for them.
pub open spec fn extended(d: DisplayView) -> bool {
    at_least(d.version, 1, 5) || d.has("EGL_KHR_create_context")
}

/// The reset strategy that a robustness policy asks for.
pub open spec fn reset_strategy(robustness: Robustness) -> Option<i32> {
    match robustness {
        Robustness::RobustNoResetNotification | Robustness::TryRobustNoResetNotification => Some(
            ffi::NO_RESET_NOTIFICATION,
        ),
        Robustness::RobustLoseContextOnReset | Robustness::TryRobustLoseContextOnReset => Some(
            ffi::LOSE_CONTEXT_ON_RESET,
        ),
        _ => None,
    }
}

/// The attributes that carry a robustness policy into the extended list.
/// The flag that switches error reporting off is named only where the
/// display has the extension for it.
pub open spec fn robustness_part(d: DisplayView, robustness: Robustness) -> Seq<i32> {
    if robustness == Robustness::NoError {
        if d.has("EGL_KHR_create_context_no_error") {
            pair(ffi::CONTEXT_OPENGL_NO_ERROR_KHR, 1)
        } else {
            Seq::empty()
        }
    } else {
        optional(ffi::CONTEXT_OPENGL_RESET_NOTIFICATION_STRATEGY, reset_strategy(robustness))
    }
}

/// The context flags of a robustness policy; zero for none.
pub open spec fn context_flags(robustness: Robustness) -> i32 {
    if robustness.robust() {
        ffi::CONTEXT_OPENGL_ROBUST_ACCESS
    } else {
        0
    }
}

/// The attributes that name the release behaviour: flushing is named where
/// the display has flush control, not flushing is named always.
pub open spec fn release_part(d: DisplayView, release: ReleaseBehavior) -> Seq<i32> {
    match release {
        ReleaseBehavior::Flush => if d.has("EGL_KHR_context_flush_control") {
            pair(ffi::CONTEXT_RELEASE_BEHAVIOR_KHR, ffi::CONTEXT_RELEASE_BEHAVIOR_FLUSH_KHR)
        } else {
            Seq::empty()
        },
        ReleaseBehavior::Keep => pair(
            ffi::CONTEXT_RELEASE_BEHAVIOR_KHR,
            ffi::CONTEXT_RELEASE_BEHAVIOR_NONE_KHR,
        ),
    }
}

/// The attribute list that a context is created with on the display `d`, or
/// the error where the display cannot meet the request.
///
/// With the extended attributes the list names the version, the robustness
/// policy, the debug flag from protocol 1.5 on, and the context flags unless
/// they are zero.  Without them a robustness policy that has to be met
/// cannot be, which is an error; any other request names the major version
/// alone, and that only for OpenGL ES from protocol 1.3 on.  The release
/// behaviour and the terminator end the list.
pub open spec fn context_attribs(
    d: DisplayView,
    version: (Api, Version),
    robustness: Robustness,
    debug: bool,
    release: ReleaseBehavior,
) -> Result<Seq<i32>, Failure> {
    if extended(d) {
        Ok(
            pair(ffi::CONTEXT_MAJOR_VERSION, version.1.0 as i32) + pair(
                ffi::CONTEXT_MINOR_VERSION,
                version.1.1 as i32,
            ) + robustness_part(d, robustness) + (if debug && at_least(d.version, 1, 5) {
                pair(ffi::CONTEXT_OPENGL_DEBUG, ffi::TRUE)
            } else {
                Seq::empty()
            }) + (if context_flags(robustness) != 0 {
                pair(ffi::CONTEXT_FLAGS_KHR, context_flags(robustness))
            } else {
                Seq::empty()
            }) + release_part(d, release) + seq![ffi::NONE],
        )
    } else if robustness.strict() {
        Err(Failure::single(ErrorType::RobustnessNotSupported))
    } else if at_least(d.version, 1, 3) && version.0 == Api::OpenGlEs {
        Ok(
            pair(ffi::CONTEXT_CLIENT_VERSION, version.1.0 as i32) + release_part(d, release)
                + seq![ffi::NONE],
        )
    } else {
        Ok(release_part(d, release) + seq![ffi::NONE])
    }
}

/// An attribute list is made of pairs and ends in the terminator: a list for
/// a context has an odd number of entries, and the terminator is the last of
/// them.
pub proof fn context_attribs_are_terminated(
    d: DisplayView,
    version: (Api, Version),
    robustness: Robustness,
    debug: bool,
    release: ReleaseBehavior,
)
    ensures
        context_attribs(d, version, robustness, debug, release) matches Ok(list) ==> list.len() % 2
            == 1 && list.last() == ffi::NONE,
{
}

/// With the extended attributes every request can be met, and the list names
/// the version first; a policy of robust access is carried by the reset
/// strategy and by the context flags.
pub proof fn extended_attribs_name_version_and_strategy(
    d: DisplayView,
    version: (Api, Version),
    robustness: Robustness,
    debug: bool,
    release: ReleaseBehavior,
)
    requires
        extended(d),
    ensures
        context_attribs(d, version, robustness, debug, release) matches Ok(list) && {
            &&& list.subrange(0, 4) == seq![
                ffi::CONTEXT_MAJOR_VERSION,
                version.1.0 as i32,
                ffi::CONTEXT_MINOR_VERSION,
                version.1.1 as i32,
            ]
            &&& list.last() == ffi::NONE
            &&& robustness.robust() ==> list.subrange(4, 6) == seq![
                ffi::CONTEXT_OPENGL_RESET_NOTIFICATION_STRATEGY,
                reset_strategy(robustness)->Some_0,
            ]
        },
{
}

/// Appends the attributes that name the release behaviour.
fn push_release(out: &mut Vec<i32>, display: &Display, release: ReleaseBehavior)
    ensures
        final(out)@ == old(out)@ + release_part(display@, release),
{
    match release {
        ReleaseBehavior::Flush => {
            if display.has_extension("EGL_KHR_context_flush_control") {
                push_pair(
                    out,
                    ffi::CONTEXT_RELEASE_BEHAVIOR_KHR,
                    ffi::CONTEXT_RELEASE_BEHAVIOR_FLUSH_KHR,
                );
            }
        },
        ReleaseBehavior::Keep => {
            push_pair(
                out,
                ffi::CONTEXT_RELEASE_BEHAVIOR_KHR,
                ffi::CONTEXT_RELEASE_BEHAVIOR_NONE_KHR,
            );
        },
    }
}

/// The attribute list that a context is created with on `display`, or the
/// error where the display cannot meet the request.
pub fn context_attributes(
    display: &Display,
    version: (Api, Version),
    robustness: Robustness,
    debug: bool,
    release: ReleaseBehavior,
) -> (r: Result<Vec<i32>, Error>)
    ensures
        match context_attribs(display@, version, robustness, debug, release) {
            Ok(list) => r matches Ok(v) && v@ == list,
            Err(f) => r matches Err(e) && e@ == f,
        },
{
    let mut out: Vec<i32> = Vec::new();
    let egl_version = display.egl_version();
    if version_at_least(egl_version, 1, 5) || display.has_extension("EGL_KHR_create_context") {
        push_pair(&mut out, ffi::CONTEXT_MAJOR_VERSION, version.1.0 as i32);
        push_pair(&mut out, ffi::CONTEXT_MINOR_VERSION, version.1.1 as i32);
        let mut flags: i32 = 0;
        match robustness {
            Robustness::NotRobust => {},
            Robustness::NoError => {
                if display.has_extension("EGL_KHR_create_context_no_error") {
                    push_pair(&mut out, ffi::CONTEXT_OPENGL_NO_ERROR_KHR, 1);
                }
            },
            Robustness::RobustNoResetNotification | Robustness::TryRobustNoResetNotification => {
                push_pair(
                    &mut out,
                    ffi::CONTEXT_OPENGL_RESET_NOTIFICATION_STRATEGY,
                    ffi::NO_RESET_NOTIFICATION,
                );
                flags = ffi::CONTEXT_OPENGL_ROBUST_ACCESS;
            },
            Robustness::RobustLoseContextOnReset | Robustness::TryRobustLoseContextOnReset => {
                push_pair(
                    &mut out,
                    ffi::CONTEXT_OPENGL_RESET_NOTIFICATION_STRATEGY,
                    ffi::LOSE_CONTEXT_ON_RESET,
                );
                flags = ffi::CONTEXT_OPENGL_ROBUST_ACCESS;
            },
        }
        if debug && version_at_least(egl_version, 1, 5) {
            push_pair(&mut out, ffi::CONTEXT_OPENGL_DEBUG, ffi::TRUE);
        }
        if flags != 0 {
            push_pair(&mut out, ffi::CONTEXT_FLAGS_KHR, flags);
        }
        push_release(&mut out, display, release);
        out.push(ffi::NONE);
        Ok(out)
    } else if robustness.is_strict() {
        Err(Error::new(ErrorType::RobustnessNotSupported))
    } else if version_at_least(egl_version, 1, 3) && matches!(version.0, Api::OpenGlEs) {
        push_pair(&mut out, ffi::CONTEXT_CLIENT_VERSION, version.1.0 as i32);
        push_release(&mut out, display, release);
        out.push(ffi::NONE);
        Ok(out)
    } else {
        push_release(&mut out, display, release);
        out.push(ffi::NONE);
        Ok(out)
    }
}

/// What creating a context led to, from the handle that the native side
/// returned and the native error: a null handle means that the version is
/// not supported where the native side found fault with the attributes or
/// with their match, and is an OS-level error otherwise.
pub open spec fn creation_failure(context: usize, code: u32) -> Option<Failure> {
    if context != ffi::NO_CONTEXT {
        None
    } else if code == ffi::BAD_MATCH || code == ffi::BAD_ATTRIBUTE {
        Some(Failure::single(ErrorType::VersionNotSupported))
    } else {
        Some(
            Failure::single(
                ErrorType::OsError(OsError::Native { call: NativeCall::CreateContext, code }),
            ),
        )
    }
}

/// The mathematical value of a [`Context`].
pub struct ContextView {
    pub display: DisplayView,
    pub context: usize,
    pub config: ConfigView,
    pub attribs: ConfigAttribs,
}

/// A native rendering context, with the config it was created for.
#[derive(Debug)]
pub struct Context {
    display: Arc<Display>,
    context: usize,
    config: ConfigWrapper<Config, ConfigAttribs>,
}

impl View for Context {
    type V = ContextView;

    closed spec fn view(&self) -> ContextView {
        ContextView {
            display: self.display@,
            context: self.context,
            config: self.config.config@,
            attribs: self.config.attribs,
        }
    }
}

/// A context is being created: the native call is to be made with what this
/// holds.
#[derive(Debug)]
pub struct Creating {
    display: Arc<Display>,
    config: ConfigWrapper<Config, ConfigAttribs>,
    share: usize,
    attributes: Vec<i32>,
}

impl Creating {
    /// The display to create the context on.
    pub closed spec fn shown(&self) -> DisplayView {
        self.display@
    }

    /// The config to create the context for.
    pub closed spec fn chosen(&self) -> ConfigView {
        self.config.config@
    }

    /// What the config offers.
    pub closed spec fn offered(&self) -> ConfigAttribs {
        self.config.attribs
    }

    /// The context to share objects with, or the "no context" sentinel.
    pub closed spec fn sharing(&self) -> usize {
        self.share
    }

    /// The attribute list.
    pub closed spec fn list(&self) -> Seq<i32> {
        self.attributes@
    }

    /// The display to create the context on.
    pub fn display(&self) -> (d: usize)
        ensures
            d == self.shown().handle,
    {
        self.display.handle()
    }

    /// The config to create the context for.
    pub fn config_id(&self) -> (c: usize)
        ensures
            c == self.chosen().config_id,
    {
        self.config.config.config_id()
    }

    /// The context to share objects with, or the "no context" sentinel.
    pub fn share(&self) -> (s: usize)
        ensures
            s == self.sharing(),
    {
        self.share
    }

    /// The attribute list.
    pub fn attributes(&self) -> (a: &Vec<i32>)
        ensures
            a@ == self.list(),
    {
        &self.attributes
    }

    /// Takes the handle that the native side returned, and `code`, the
    /// native error at that moment.
    pub fn created(self, context: usize, code: u32) -> (r: Result<Context, Error>)
        ensures
            match creation_failure(context, code) {
                Some(f) => r matches Err(e) && e@ == f,
                None => r matches Ok(c) && c@ == (ContextView {
                    display: self.shown(),
                    context,
                    config: self.chosen(),
                    attribs: self.offered(),
                }),
            },
    {
        if context == ffi::NO_CONTEXT {
            if code == ffi::BAD_MATCH || code == ffi::BAD_ATTRIBUTE {
                Err(Error::new(ErrorType::VersionNotSupported))
            } else {
                Err(Error::native(NativeCall::CreateContext, code))
            }
        } else {
            Ok(Context { display: self.display, context, config: self.config })
        }
    }
}

/// Whether a name can be handed to the native side as it is: it holds no
/// zero byte.
pub open spec fn plain_name(name: Seq<u8>) -> bool {
    forall|i: int| 0 <= i < name.len() ==> name[i] != 0
}

/// Whether a name can be handed to the native side as it is.
pub fn is_plain_name(addr: &str) -> (b: bool)
    ensures
        b == plain_name(addr.spec_bytes()),
{
    let bytes = addr.as_bytes();
    let n: usize = bytes.len();
    let mut i: usize = 0;
    while i < n
        invariant
            i <= n,
            n == bytes@.len(),
            bytes@ == addr.spec_bytes(),
            forall|j: int| 0 <= j < i ==> bytes@[j] != 0,
        decreases n - i,
    {
        if bytes[i] == 0 {
            return false;
        }
        i += 1;
    }
    true
}

impl Context {
    /// Starts creating a context for the config `conf`.
    ///
    /// `bound` is what making the API of the config current answered (see
    /// [`Display::bind_api_call`]); an API that is not current is a version
    /// that is not supported.  The attribute list is made next, which fails
    /// for a robustness policy that the display cannot meet.
    pub fn new(
        cb: ContextBuilderWrapper<&Context>,
        conf: ConfigWrapper<&Config, &ConfigAttribs>,
        bound: bool,
    ) -> (r: Result<Creating, Error>)
        ensures
            ({
                let d = conf.config@.display;
                if !api_bound(conf.attribs.version.0, d.version, bound) {
                    r matches Err(e) && e@ == Failure::single(ErrorType::VersionNotSupported)
                } else {
                    match context_attribs(
                        d,
                        conf.attribs.version,
                        cb.robustness,
                        cb.debug,
                        conf.attribs.release_behavior,
                    ) {
                        Err(f) => r matches Err(e) && e@ == f,
                        Ok(list) => r matches Ok(next) && next.shown() == d && next.chosen()
                            == conf.config@ && next.offered() == *conf.attribs && next.list()
                            == list && next.sharing() == match cb.sharing {
                            Some(other) => other@.context,
                            None => ffi::NO_CONTEXT,
                        },
                    }
                }
            }),
    {
        let display = Display::share(conf.config.display());
        let (api, version) = conf.attribs.version;
        match Display::bind_api(api, display.egl_version(), bound) {
            Err(e) => {
                return Err(e);
            },
            Ok(()) => {},
        }
        let share = match cb.sharing {
            Some(other) => other.context,
            None => ffi::NO_CONTEXT,
        };
        match context_attributes(
            &display,
            conf.attribs.version,
            cb.robustness,
            cb.debug,
            conf.attribs.release_behavior,
        ) {
            Err(e) => Err(e),
            Ok(attributes) => Ok(
                Creating {
                    display,
                    config: ConfigWrapper { config: conf.config.share(), attribs: *conf.attribs },
                    share,
                    attributes,
                },
            ),
        }
    }

    /// The native handle.
    pub fn handle(&self) -> (h: usize)
        ensures
            h == self@.context,
    {
        self.context
    }

    /// The call that makes the context current with `surf` for drawing and
    /// for reading.
    pub fn make_current_call<T: SurfaceTypeTrait>(&self, surf: &Surface<T>) -> (r: BindRequest)
        ensures
            r == (BindRequest {
                display: self@.display.handle,
                draw: surf@.surface,
                read: surf@.surface,
                context: self@.context,
            }),
    {
        BindRequest {
            display: self.display.handle(),
            draw: surf.handle(),
            read: surf.handle(),
            context: self.context,
        }
    }

    /// Concludes making the context current with `surf`: `ret` is what the
    /// call of [`Context::make_current_call`] answered.
    ///
    /// After a success the result is the swap interval to set, which there
    /// is for a window surface that has not been current; what that call
    /// answers goes to [`Surface::swap_interval_set`].
    pub fn make_current<T: SurfaceTypeTrait>(&self, surf: &Surface<T>, ret: NativeResult) -> (r:
        Result<Option<i32>, Error>)
        ensures
            match bind_failure(Some(ret)) {
                Some(f) => r matches Err(e) && e@ == f,
                None => r matches Ok(interval) && (interval == interval_on_bind(
                    true,
                    surf@.kind,
                    surf@.attribs,
                ) || interval == interval_on_bind(false, surf@.kind, surf@.attribs)),
            },
    {
        match check_make_current(Some(ret)) {
            Err(e) => Err(e),
            Ok(()) => Ok(surf.bound()),
        }
    }

    /// The call that makes the context current without a surface.
    pub fn make_current_surfaceless_call(&self) -> (r: BindRequest)
        ensures
            r == (BindRequest {
                display: self@.display.handle,
                draw: ffi::NO_SURFACE,
                read: ffi::NO_SURFACE,
                context: self@.context,
            }),
    {
        BindRequest {
            display: self.display.handle(),
            draw: ffi::NO_SURFACE,
            read: ffi::NO_SURFACE,
            context: self.context,
        }
    }

    /// Concludes making the context current without a surface: `ret` is what
    /// the call of [`Context::make_current_surfaceless_call`] answered.
    pub fn make_current_surfaceless(&self, ret: NativeResult) -> (r: Result<(), Error>)
        ensures
            match bind_failure(Some(ret)) {
                Some(f) => r matches Err(e) && e@ == f,
                None => r is Ok,
            },
    {
        check_make_current(Some(ret))
    }

    /// The call that stops the context from being current, where `current`
    /// is the context that is current on the thread: none where this is
    /// another one, which leaves everything as it is.
    pub fn make_not_current_call(&self, current: usize) -> (r: Option<BindRequest>)
        ensures
            r == unbind_plan(self@.display.handle, self@.context, current),
    {
        if current == self.context {
            Some(BindRequest::unbind(self.display.handle()))
        } else {
            None
        }
    }

    /// Concludes stopping the context from being current: `ret` is what the
    /// call of [`Context::make_not_current_call`] answered, and is not looked
    /// at where there was none.  A context that was not current is a
    /// success.
    pub fn make_not_current(&self, current: usize, ret: NativeResult) -> (r: Result<(), Error>)
        ensures
            match bind_failure(unbind_answer(self@.context, current, ret)) {
                Some(f) => r matches Err(e) && e@ == f,
                None => r is Ok,
            },
    {
        if current == self.context {
            check_make_current(Some(ret))
        } else {
            check_make_current(None)
        }
    }

    /// Whether the context is the one that is current on the thread, where
    /// `current` is what the native side reports as current there.
    pub fn is_current(&self, current: usize) -> (b: bool)
        ensures
            b == (current == self@.context),
    {
        current == self.context
    }

    /// The config of the context, with what it offers.
    pub fn get_config(&self) -> (c: ConfigWrapper<Config, ConfigAttribs>)
        ensures
            c.config@ == self@.config,
            c.attribs == self@.attribs,
    {
        ConfigWrapper { config: self.config.config.share(), attribs: self.config.attribs }
    }

    /// The API that the context renders with.
    pub fn get_api(&self) -> (api: Api)
        ensures
            api == self@.config.version.0,
    {
        self.config.config.version().0
    }

    /// The name of a function as the native lookup takes it: its bytes and
    /// a zero byte after them.
    pub fn get_proc_address(&self, addr: &str) -> (name: Vec<u8>)
        requires
            plain_name(addr.spec_bytes()),
        ensures
            name@ == addr.spec_bytes().push(0u8),
    {
        let bytes = addr.as_bytes();
        let mut name: Vec<u8> = Vec::new();
        let n: usize = bytes.len();
        let mut i: usize = 0;
        while i < n
            invariant
                i <= n,
                n == bytes@.len(),
                bytes@ == addr.spec_bytes(),
                name@ == bytes@.take(i as int),
            decreases n - i,
        {
            name.push(bytes[i]);
            i += 1;
        }
        name.push(0);
        name
    }

    /// The query for the native visual of the context's config.
    pub fn native_visual_id_query(&self) -> (q: AttribQuery)
        ensures
            q == (AttribQuery {
                display: self@.display.handle,
                config: self@.config.config_id,
                attribute: ffi::NATIVE_VISUAL_ID,
            }),
    {
        native_visual_id_query(self.display.handle(), self.config.config.config_id())
    }

    /// The native visual of the context's config, from what the query for it
    /// answered: the value, or the native error, which makes an OS-level
    /// error.
    pub fn get_native_visual_id(&self, reply: Result<i32, u32>) -> (r: Result<i32, Error>)
        ensures
            match reply {
                Ok(value) => r == Ok::<i32, Error>(value),
                Err(code) => r matches Err(e) && e@ == Failure::single(
                    ErrorType::OsError(
                        OsError::Native { call: NativeCall::GetConfigAttrib, code },
                    ),
                ),
            },
    {
        get_native_visual_id(reply)
    }

    /// The calls that destroy the context, where `current` is what the
    /// thread holds: the context is first taken from the thread if it is
    /// current there.  The context is invalidated: from now on its handle is
    /// the "no context" sentinel.
    pub fn destroy(&mut self, current: ThreadBinding) -> (d: Destruction)
        ensures
            d == (Destruction {
                unbind: guard_plan(
                    old(self)@.display.handle,
                    current,
                    ffi::NO_SURFACE,
                    ffi::NO_SURFACE,
                    old(self)@.context,
                ),
                display: old(self)@.display.handle,
                handle: old(self)@.context,
            }),
            final(self)@ == (ContextView { context: ffi::NO_CONTEXT, ..old(self)@ }),
    {
        let display = self.display.handle();
        let handle = self.context;
        self.context = ffi::NO_CONTEXT;
        Destruction {
            unbind: guard_destruction(
                display,
                current,
                ffi::NO_SURFACE,
                ffi::NO_SURFACE,
                handle,
            ),
            display,
            handle,
        }
    }
}

} // verus!
