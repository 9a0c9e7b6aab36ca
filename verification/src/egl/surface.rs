//! Surfaces: what they are created with, presenting them, and the swap
//! interval that a window surface is given when it is first made current.

use crate::config::{ConfigAttribs, ConfigWrapper};
use crate::egl::config::{pair, push_pair, Config, ConfigView};
use crate::egl::display::{Display, DisplayView};
use crate::egl::flag::{flag_get, flag_new, flag_set};
use crate::egl::guard::{guard_destruction, guard_plan, BindRequest, NativeResult, ThreadBinding};
use crate::egl::table::{Egl, EntryPoint};
use crate::error::{Error, ErrorType, Failure, NativeCall, OsError, Unsupported};
use crate::ffi;
use crate::surface::{PBuffer, SurfaceType, SurfaceTypeTrait, Window};
use std::marker::PhantomData;
use std::sync::Arc;
use vstd::prelude::*;

verus! {

/// A size in pixels.
#[derive(Clone, Copy, Debug, PartialEq, Eq)]
pub struct PhysicalSize {
    pub width: u32,
    pub height: u32,
}

/// A rectangle of a surface, in pixels.
#[derive(Clone, Copy, Debug, PartialEq, Eq)]
pub struct Rect {
    pub x: u32,
    pub y: u32,
    pub width: u32,
    pub height: u32,
}

/// The colour-space attribute of a surface: none where the display knows no
/// colour spaces; else sRGB or linear, as the config offers.  Linear is named
/// too, so that nothing hangs on what the native side takes as its default.
pub open spec fn colorspace_part(has_colorspace: bool, srgb: bool) -> Seq<i32> {
    if has_colorspace {
        pair(
            ffi::GL_COLORSPACE_KHR,
            if srgb {
                ffi::GL_COLORSPACE_SRGB_KHR
            } else {
                ffi::GL_COLORSPACE_LINEAR_KHR
            },
        )
    } else {
        Seq::empty()
    }
}

/// The texture format of a buffer off the screen: none where the buffer has
/// no area, else with or without alpha, as the config has it.
pub open spec fn texture_format(width: u32, height: u32, alpha_bits: u8) -> i32 {
    if width == 0 || height == 0 {
        ffi::NO_TEXTURE
    } else if alpha_bits > 0 {
        ffi::TEXTURE_RGBA
    } else {
        ffi::TEXTURE_RGB
    }
}

/// The attributes that describe the size of a buffer off the screen.
pub open spec fn size_part(size: Option<(u32, u32)>, alpha_bits: u8) -> Seq<i32> {
    match size {
        Some((width, height)) => pair(
            ffi::TEXTURE_FORMAT,
            texture_format(width, height, alpha_bits),
        ) + pair(ffi::WIDTH, width as i32) + pair(ffi::HEIGHT, height as i32),
        None => Seq::empty(),
    }
}

/// The attribute list that a surface is created with: the colour space, the
/// size where the surface is a buffer off the screen, and the terminator.
pub open spec fn surface_attribs(
    has_colorspace: bool,
    attribs: ConfigAttribs,
    size: Option<(u32, u32)>,
) -> Seq<i32> {
    colorspace_part(has_colorspace, attribs.srgb) + size_part(size, attribs.alpha_bits)
        + seq![ffi::NONE]
}

/// An attribute list is made of pairs and ends in the terminator: a list for
/// a surface has an odd number of entries, and the terminator is the last of
/// them.
pub proof fn surface_attribs_are_terminated(
    has_colorspace: bool,
    attribs: ConfigAttribs,
    size: Option<(u32, u32)>,
)
    ensures
        surface_attribs(has_colorspace, attribs, size).len() % 2 == 1,
        surface_attribs(has_colorspace, attribs, size).last() == ffi::NONE,
{
}

/// The rectangles as the list of numbers handed to the native side: the
/// position and the size of each, in their order.
pub open spec fn flat_rects(rects: Seq<Rect>) -> Seq<i32>
    decreases rects.len(),
{
    if rects.len() == 0 {
        Seq::empty()
    } else {
        flat_rects(rects.drop_last()) + seq![
            rects.last().x as i32,
            rects.last().y as i32,
            rects.last().width as i32,
            rects.last().height as i32,
        ]
    }
}

/// The list of numbers for `n` rectangles has four numbers for each, and
/// holds the rectangle at place `i` at the places from `4 * i` on.
pub proof fn flat_rects_layout(rects: Seq<Rect>)
    ensures
        flat_rects(rects).len() == 4 * rects.len(),
        forall|i: int|
            0 <= i < rects.len() ==> {
                &&& flat_rects(rects)[4 * i] == (#[trigger] rects[i]).x as i32
                &&& flat_rects(rects)[4 * i + 1] == rects[i].y as i32
                &&& flat_rects(rects)[4 * i + 2] == rects[i].width as i32
                &&& flat_rects(rects)[4 * i + 3] == rects[i].height as i32
            },
    decreases rects.len(),
{
    if rects.len() > 0 {
        let front = rects.drop_last();
        flat_rects_layout(front);
        assert forall|i: int| 0 <= i < rects.len() implies {
            &&& flat_rects(rects)[4 * i] == (#[trigger] rects[i]).x as i32
            &&& flat_rects(rects)[4 * i + 1] == rects[i].y as i32
            &&& flat_rects(rects)[4 * i + 2] == rects[i].width as i32
            &&& flat_rects(rects)[4 * i + 3] == rects[i].height as i32
        } by {
            if i < rects.len() - 1 {
                assert(front[i] == rects[i]);
            }
        }
    }
}

/// The swap interval to set once a surface was made current: that of its
/// config, for a window surface that was not current before; none for any
/// other surface.
pub open spec fn interval_on_bind(
    has_been_current: bool,
    kind: SurfaceType,
    attribs: ConfigAttribs,
) -> Option<i32> {
    if !has_been_current && kind == SurfaceType::Window {
        Some(attribs.desired_swap_interval.count() as i32)
    } else {
        None
    }
}

/// The swap interval to set once a surface was made current.
pub fn swap_interval_on_bind(
    has_been_current: bool,
    kind: SurfaceType,
    attribs: &ConfigAttribs,
) -> (r: Option<i32>)
    ensures
        r == interval_on_bind(has_been_current, kind, *attribs),
{
    if !has_been_current && matches!(kind, SurfaceType::Window) {
        Some(#[verifier::truncate] (attribs.desired_swap_interval.refreshes() as i32))
    } else {
        None
    }
}

/// Whether a surface counts as having been current, after it was made
/// current and the swap interval that this asked for, if any, was set with
/// the result `set`.
pub open spec fn current_after_bind(
    has_been_current: bool,
    kind: SurfaceType,
    attribs: ConfigAttribs,
    set: NativeResult,
) -> bool {
    match interval_on_bind(has_been_current, kind, attribs) {
        Some(_) => set is Ok,
        None => has_been_current,
    }
}

/// The swap interval of a window surface is set once.  Making the surface
/// current for the first time asks for it; after that has succeeded, making
/// it current again asks for nothing, however often.
pub proof fn swap_interval_is_set_once(attribs: ConfigAttribs)
    ensures
        interval_on_bind(false, SurfaceType::Window, attribs) == Some(
            attribs.desired_swap_interval.count() as i32,
        ),
        ({
            let first = current_after_bind(false, SurfaceType::Window, attribs, Ok(()));
            let second = current_after_bind(first, SurfaceType::Window, attribs, Ok(()));
            &&& first
            &&& interval_on_bind(first, SurfaceType::Window, attribs) is None
            &&& second
            &&& interval_on_bind(second, SurfaceType::Window, attribs) is None
        }),
{
}

/// What presenting a surface led to, from what the native call answered: a
/// lost context is reported as such, any other failure as an OS-level error
/// of `call`.
pub open spec fn swap_failure(call: NativeCall, ret: NativeResult) -> Option<Failure> {
    match ret {
        Err(code) => Some(
            Failure::single(
                if code == ffi::CONTEXT_LOST {
                    ErrorType::ContextLost
                } else {
                    ErrorType::OsError(OsError::Native { call, code })
                },
            ),
        ),
        Ok(_) => None,
    }
}

/// The arguments of the native call that creates a surface.
#[derive(Debug)]
pub struct SurfaceRequest {
    pub display: usize,
    pub config: usize,
    /// The window to back the surface, where it is a window surface.
    pub native_window: Option<usize>,
    pub attribs: Vec<i32>,
}

/// The arguments of the native call that presents a surface.
#[derive(Debug)]
pub struct SwapRequest {
    pub display: usize,
    pub surface: usize,
    /// The changed rectangles, four numbers each; empty where the whole
    /// surface is presented.
    pub rects: Vec<i32>,
    /// The number of changed rectangles.
    pub n_rects: i32,
}

/// The calls that destroy a native handle: first `unbind`, where there is
/// one, and then the destruction of `handle` on `display`.
#[derive(Clone, Copy, Debug, PartialEq, Eq)]
pub struct Destruction {
    pub unbind: Option<BindRequest>,
    pub display: usize,
    pub handle: usize,
}

/// The mathematical value of a [`Surface`].  The flag that tells whether the
/// surface has been current is no part of it: it lives behind a lock and may
/// change at any time.
pub struct SurfaceView {
    pub display: DisplayView,
    pub surface: usize,
    pub config: ConfigView,
    pub attribs: ConfigAttribs,
    pub kind: SurfaceType,
}

/// A drawable of kind `T`.
#[derive(Debug)]
pub struct Surface<T: SurfaceTypeTrait> {
    display: Arc<Display>,
    surface: usize,
    config: ConfigWrapper<Config, ConfigAttribs>,
    phantom: PhantomData<T>,
    has_been_current: parking_lot::Mutex<bool>,
}

impl<T: SurfaceTypeTrait> View for Surface<T> {
    type V = SurfaceView;

    closed spec fn view(&self) -> SurfaceView {
        SurfaceView {
            display: self.display@,
            surface: self.surface,
            config: self.config.config@,
            attribs: self.config.attribs,
            kind: T::kind(),
        }
    }
}

/// The rectangles as the list of numbers handed to the native side.
pub fn flatten_rects(rects: &[Rect]) -> (out: Vec<i32>)
    ensures
        out@ == flat_rects(rects@),
{
    let mut out: Vec<i32> = Vec::new();
    let n: usize = rects.len();
    let mut i: usize = 0;
    while i < n
        invariant
            i <= n,
            n == rects@.len(),
            out@ == flat_rects(rects@.take(i as int)),
        decreases n - i,
    {
        let rect = rects[i];
        proof {
            assert(rects@.take(i as int + 1).drop_last() == rects@.take(i as int));
        }
        out.push(#[verifier::truncate] (rect.x as i32));
        out.push(#[verifier::truncate] (rect.y as i32));
        out.push(#[verifier::truncate] (rect.width as i32));
        out.push(#[verifier::truncate] (rect.height as i32));
        i += 1;
    }
    assert(rects@.take(n as int) == rects@);
    out
}

impl<T: SurfaceTypeTrait> Surface<T> {
    /// The attribute list that a surface for `conf` is created with; `size`
    /// is the size of a buffer off the screen, and `None` for a window.
    pub fn assemble_desc(
        conf: ConfigWrapper<&Config, &ConfigAttribs>,
        size: Option<PhysicalSize>,
    ) -> (out: Vec<i32>)
        ensures
            out@ == surface_attribs(
                conf.config@.display.has("EGL_KHR_gl_colorspace"),
                *conf.attribs,
                match size {
                    Some(s) => Some((s.width, s.height)),
                    None => None,
                },
            ),
    {
        let mut out: Vec<i32> = Vec::new();
        if conf.config.display().has_extension("EGL_KHR_gl_colorspace") {
            if conf.attribs.srgb {
                push_pair(&mut out, ffi::GL_COLORSPACE_KHR, ffi::GL_COLORSPACE_SRGB_KHR);
            } else {
                push_pair(&mut out, ffi::GL_COLORSPACE_KHR, ffi::GL_COLORSPACE_LINEAR_KHR);
            }
        }
        match size {
            Some(size) => {
                let (width, height) = (size.width, size.height);
                let format: i32 = if width == 0 || height == 0 {
                    ffi::NO_TEXTURE
                } else if conf.attribs.alpha_bits > 0 {
                    ffi::TEXTURE_RGBA
                } else {
                    ffi::TEXTURE_RGB
                };
                push_pair(&mut out, ffi::TEXTURE_FORMAT, format);
                push_pair(&mut out, ffi::WIDTH, #[verifier::truncate] (width as i32));
                push_pair(&mut out, ffi::HEIGHT, #[verifier::truncate] (height as i32));
            },
            None => {},
        }
        out.push(ffi::NONE);
        out
    }

    /// The surface for a handle that the native side returned; a null handle
    /// is an OS-level error of `call` with the native error `code`.
    fn from_handle(
        conf: ConfigWrapper<&Config, &ConfigAttribs>,
        surface: usize,
        code: u32,
        call: NativeCall,
    ) -> (r: Result<Self, Error>)
        ensures
            if surface == ffi::NO_SURFACE {
                r matches Err(e) && e@ == Failure::single(
                    ErrorType::OsError(OsError::Native { call, code }),
                )
            } else {
                r matches Ok(s) && s@ == (SurfaceView {
                    display: conf.config@.display,
                    surface,
                    config: conf.config@,
                    attribs: *conf.attribs,
                    kind: T::kind(),
                })
            },
    {
        if surface == ffi::NO_SURFACE {
            return Err(Error::native(call, code));
        }
        Ok(
            Surface {
                display: Display::share(conf.config.display()),
                surface,
                config: ConfigWrapper { config: conf.config.share(), attribs: *conf.attribs },
                phantom: PhantomData,
                has_been_current: flag_new(false),
            },
        )
    }

    /// The native handle; the "no surface" sentinel once the surface was
    /// invalidated.
    pub fn handle(&self) -> (h: usize)
        ensures
            h == self@.surface,
    {
        self.surface
    }

    /// Whether the surface is current on the thread that holds `current`,
    /// for drawing or for reading.
    pub fn is_current(&self, current: &ThreadBinding) -> (b: bool)
        ensures
            b == current.holds_surface(self@.surface),
    {
        current.draw == self.surface || current.read == self.surface
    }

    /// The config of the surface, with what it offers.
    pub fn get_config(&self) -> (c: ConfigWrapper<Config, ConfigAttribs>)
        ensures
            c.config@ == self@.config,
            c.attribs == self@.attribs,
    {
        ConfigWrapper { config: self.config.config.share(), attribs: self.config.attribs }
    }

    /// The call that stops the surface from being current: none where it is
    /// not current, which leaves everything as it is.
    pub fn make_not_current_call(&self, current: &ThreadBinding) -> (r: Option<BindRequest>)
        ensures
            r == if current.holds_surface(self@.surface) {
                Some(BindRequest::neutral(self@.display.handle))
            } else {
                None
            },
    {
        if self.is_current(current) {
            Some(BindRequest::unbind(self.display.handle()))
        } else {
            None
        }
    }

    /// Concludes stopping the surface from being current: `ret` is what the
    /// call of [`Surface::make_not_current_call`] answered, and is not
    /// looked at where there was none.
    pub fn make_not_current(&self, current: &ThreadBinding, ret: NativeResult) -> (r: Result<
        (),
        Error,
    >)
        ensures
            match crate::egl::guard::bind_failure(
                if current.holds_surface(self@.surface) {
                    Some(ret)
                } else {
                    None
                },
            ) {
                Some(f) => r matches Err(e) && e@ == f,
                None => r is Ok,
            },
    {
        if self.is_current(current) {
            crate::egl::guard::check_make_current(Some(ret))
        } else {
            crate::egl::guard::check_make_current(None)
        }
    }

    /// The swap interval to set now that the surface was made current: that
    /// of its config for a window surface that has not been current, none
    /// otherwise.
    pub fn bound(&self) -> (r: Option<i32>)
        ensures
            r == interval_on_bind(true, self@.kind, self@.attribs) || r == interval_on_bind(
                false,
                self@.kind,
                self@.attribs,
            ),
    {
        let has_been_current = flag_get(&self.has_been_current);
        swap_interval_on_bind(has_been_current, T::surface_type(), &self.config.attribs)
    }

    /// Takes what setting the swap interval answered.  From a success on the
    /// surface counts as having been current; a failure is an OS-level
    /// error, and the interval is set again the next time.
    pub fn swap_interval_set(&self, ret: NativeResult) -> (r: Result<(), Error>)
        ensures
            match ret {
                Ok(_) => r is Ok,
                Err(code) => r matches Err(e) && e@ == Failure::single(
                    ErrorType::OsError(OsError::Native { call: NativeCall::SwapInterval, code }),
                ),
            },
    {
        match ret {
            Ok(_) => {
                flag_set(&self.has_been_current, true);
                Ok(())
            },
            Err(code) => Err(Error::native(NativeCall::SwapInterval, code)),
        }
    }

    /// The calls that destroy the surface, where `current` is what the
    /// thread holds: the surface is first taken from the thread if it is
    /// current there.  The surface is invalidated: from now on its handle is
    /// the "no surface" sentinel.
    pub fn destroy(&mut self, current: ThreadBinding) -> (d: Destruction)
        ensures
            d == (Destruction {
                unbind: guard_plan(
                    old(self)@.display.handle,
                    current,
                    old(self)@.surface,
                    old(self)@.surface,
                    ffi::NO_CONTEXT,
                ),
                display: old(self)@.display.handle,
                handle: old(self)@.surface,
            }),
            final(self)@ == (SurfaceView { surface: ffi::NO_SURFACE, ..old(self)@ }),
    {
        let display = self.display.handle();
        let handle = self.surface;
        self.surface = ffi::NO_SURFACE;
        Destruction {
            unbind: guard_destruction(display, current, handle, handle, ffi::NO_CONTEXT),
            display,
            handle,
        }
    }
}

impl Surface<Window> {
    /// The arguments of the call that creates a surface on the window
    /// `nwin`.
    pub fn creation(conf: ConfigWrapper<&Config, &ConfigAttribs>, nwin: usize) -> (r:
        SurfaceRequest)
        ensures
            r.display == conf.config@.display.handle,
            r.config == conf.config@.config_id,
            r.native_window == Some(nwin),
            r.attribs@ == surface_attribs(
                conf.config@.display.has("EGL_KHR_gl_colorspace"),
                *conf.attribs,
                None,
            ),
    {
        SurfaceRequest {
            display: conf.config.display().handle(),
            config: conf.config.config_id(),
            native_window: Some(nwin),
            attribs: Self::assemble_desc(conf, None),
        }
    }

    /// The window surface for the handle `surface` that the native side
    /// returned; a null handle is an OS-level error with the native error
    /// `code`.
    pub fn new(
        conf: ConfigWrapper<&Config, &ConfigAttribs>,
        surface: usize,
        code: u32,
    ) -> (r: Result<Self, Error>)
        ensures
            if surface == ffi::NO_SURFACE {
                r matches Err(e) && e@ == Failure::single(
                    ErrorType::OsError(
                        OsError::Native { call: NativeCall::CreateWindowSurface, code },
                    ),
                )
            } else {
                r matches Ok(s) && s@ == (SurfaceView {
                    display: conf.config@.display,
                    surface,
                    config: conf.config@,
                    attribs: *conf.attribs,
                    kind: SurfaceType::Window,
                })
            },
    {
        Self::from_handle(conf, surface, code, NativeCall::CreateWindowSurface)
    }

    /// What presenting the surface leads to before the native side is
    /// asked: a surface that was invalidated has lost its context.
    pub open spec fn swap_refusal(self) -> Option<Failure> {
        if self@.surface == ffi::NO_SURFACE {
            Some(Failure::single(ErrorType::ContextLost))
        } else {
            None
        }
    }

    /// The arguments of the call that presents the surface.  A surface that
    /// was invalidated has lost its context, and nothing is to be called.
    pub fn swap_buffers_call(&self) -> (r: Result<SwapRequest, Error>)
        ensures
            match self.swap_refusal() {
                Some(f) => r matches Err(e) && e@ == f,
                None => r matches Ok(q) && q.display == self@.display.handle && q.surface
                    == self@.surface && q.rects@ == Seq::<i32>::empty() && q.n_rects == 0,
            },
    {
        if self.surface == ffi::NO_SURFACE {
            return Err(Error::new(ErrorType::ContextLost));
        }
        Ok(
            SwapRequest {
                display: self.display.handle(),
                surface: self.surface,
                rects: Vec::new(),
                n_rects: 0,
            },
        )
    }

    /// Concludes presenting the surface: `ret` is what the call of
    /// [`Surface::swap_buffers_call`] answered, and is not looked at where
    /// there was none.
    pub fn swap_buffers(&self, ret: NativeResult) -> (r: Result<(), Error>)
        ensures
            match self.swap_refusal() {
                Some(f) => r matches Err(e) && e@ == f,
                None => match swap_failure(NativeCall::SwapBuffers, ret) {
                    Some(f) => r matches Err(e) && e@ == f,
                    None => r is Ok,
                },
            },
    {
        if self.surface == ffi::NO_SURFACE {
            return Err(Error::new(ErrorType::ContextLost));
        }
        match ret {
            Ok(_) => Ok(()),
            Err(code) => {
                if code == ffi::CONTEXT_LOST {
                    Err(Error::new(ErrorType::ContextLost))
                } else {
                    Err(Error::native(NativeCall::SwapBuffers, code))
                }
            },
        }
    }

    /// What presenting changed rectangles leads to before the native side
    /// is asked: it is not supported where the entry point for it is not
    /// loaded, and a surface that was invalidated has lost its context.
    pub open spec fn damage_refusal(self, egl: Egl) -> Option<Failure> {
        if !egl.loaded(EntryPoint::SwapBuffersWithDamageKHR) {
            Some(Failure::single(ErrorType::NotSupported(Unsupported::BufferDamage)))
        } else {
            self.swap_refusal()
        }
    }

    /// The arguments of the call that presents the changed rectangles of the
    /// surface.  The rectangles are handed on as they are.
    pub fn swap_buffers_with_damage_call(&self, egl: &Egl, rects: &[Rect]) -> (r: Result<
        SwapRequest,
        Error,
    >)
        ensures
            match self.damage_refusal(*egl) {
                Some(f) => r matches Err(e) && e@ == f,
                None => r matches Ok(q) && q.display == self@.display.handle && q.surface
                    == self@.surface && q.rects@ == flat_rects(rects@) && q.n_rects
                    == rects@.len() as i32,
            },
    {
        if !egl.is_loaded(EntryPoint::SwapBuffersWithDamageKHR) {
            return Err(Error::new(ErrorType::NotSupported(Unsupported::BufferDamage)));
        }
        if self.surface == ffi::NO_SURFACE {
            return Err(Error::new(ErrorType::ContextLost));
        }
        Ok(
            SwapRequest {
                display: self.display.handle(),
                surface: self.surface,
                rects: flatten_rects(rects),
                n_rects: #[verifier::truncate] (rects.len() as i32),
            },
        )
    }

    /// Concludes presenting the changed rectangles of the surface: `ret` is
    /// what the call of [`Surface::swap_buffers_with_damage_call`] answered,
    /// and is not looked at where there was none.
    pub fn swap_buffers_with_damage(&self, egl: &Egl, ret: NativeResult) -> (r: Result<(), Error>)
        ensures
            match self.damage_refusal(*egl) {
                Some(f) => r matches Err(e) && e@ == f,
                None => match swap_failure(NativeCall::SwapBuffersWithDamage, ret) {
                    Some(f) => r matches Err(e) && e@ == f,
                    None => r is Ok,
                },
            },
    {
        if !egl.is_loaded(EntryPoint::SwapBuffersWithDamageKHR) {
            return Err(Error::new(ErrorType::NotSupported(Unsupported::BufferDamage)));
        }
        if self.surface == ffi::NO_SURFACE {
            return Err(Error::new(ErrorType::ContextLost));
        }
        match ret {
            Ok(_) => Ok(()),
            Err(code) => {
                if code == ffi::CONTEXT_LOST {
                    Err(Error::new(ErrorType::ContextLost))
                } else {
                    Err(Error::native(NativeCall::SwapBuffersWithDamage, code))
                }
            },
        }
    }
}

impl Surface<PBuffer> {
    /// The arguments of the call that creates a buffer off the screen of the
    /// given size.
    pub fn creation(conf: ConfigWrapper<&Config, &ConfigAttribs>, size: PhysicalSize) -> (r:
        SurfaceRequest)
        ensures
            r.display == conf.config@.display.handle,
            r.config == conf.config@.config_id,
            r.native_window is None,
            r.attribs@ == surface_attribs(
                conf.config@.display.has("EGL_KHR_gl_colorspace"),
                *conf.attribs,
                Some((size.width, size.height)),
            ),
    {
        SurfaceRequest {
            display: conf.config.display().handle(),
            config: conf.config.config_id(),
            native_window: None,
            attribs: Self::assemble_desc(conf, Some(size)),
        }
    }

    /// The buffer off the screen for the handle `surface` that the native
    /// side returned; a null handle is an OS-level error with the native
    /// error `code`.
    pub fn new(
        conf: ConfigWrapper<&Config, &ConfigAttribs>,
        surface: usize,
        code: u32,
    ) -> (r: Result<Self, Error>)
        ensures
            if surface == ffi::NO_SURFACE {
                r matches Err(e) && e@ == Failure::single(
                    ErrorType::OsError(
                        OsError::Native { call: NativeCall::CreatePbufferSurface, code },
                    ),
                )
            } else {
                r matches Ok(s) && s@ == (SurfaceView {
                    display: conf.config@.display,
                    surface,
                    config: conf.config@,
                    attribs: *conf.attribs,
                    kind: SurfaceType::PBuffer,
                })
            },
    {
        Self::from_handle(conf, surface, code, NativeCall::CreatePbufferSurface)
    }
}

} // verus!
