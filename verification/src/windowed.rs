//! A context paired with the window it renders to.
//!
//! The type of a context tells whether it may be current.  Only a context
//! that is not current may be handed to another thread.

use crate::config::Api;
use crate::context::{ContextBuilderWrapper, PixelFormat};
use crate::egl::context::{plain_name, Context as EglContext};
use crate::egl::guard::{
    bind_failure, unbind_answer, unbind_plan, BindRequest, NativeResult,
};
use crate::egl::surface::{
    interval_on_bind, swap_failure, PhysicalSize, Surface, SwapRequest,
};
use crate::error::{Error, NativeCall};
use crate::surface::Window;
use std::marker::PhantomData;
use std::rc::Rc;
use vstd::prelude::*;
use vstd::string::StringSliceAdditionalSpecFns;

verus! {

/// A type that tells whether a context may be current.
pub trait ContextCurrentState: Copy {
    /// What the type says.
    spec fn may_be_current() -> bool;
}

/// The context may be current on the thread that holds it, and has to stay
/// there.
#[derive(Clone, Copy, Debug)]
pub struct PossiblyCurrentContext {
    phantom: PhantomData<Rc<()>>,
}

/// The context is not current on any thread.
#[derive(Clone, Copy, Debug)]
pub enum NotCurrentContext {
    NotCurrent,
}

impl ContextCurrentState for PossiblyCurrentContext {
    open spec fn may_be_current() -> bool {
        true
    }
}

impl ContextCurrentState for NotCurrentContext {
    open spec fn may_be_current() -> bool {
        false
    }
}

/// A context with the window surface it renders to.
#[derive(Debug)]
pub struct Context<T: ContextCurrentState> {
    pub(crate) context: EglContext,
    pub(crate) surface: Surface<Window>,
    pub(crate) phantom: PhantomData<T>,
}

impl<T: ContextCurrentState> Context<T> {
    /// The native context inside.
    pub closed spec fn held(&self) -> EglContext {
        self.context
    }

    /// The window surface inside.
    pub closed spec fn target(&self) -> Surface<Window> {
        self.surface
    }

    /// Pairs a context that was just created with its surface.
    pub fn new(context: EglContext, surface: Surface<Window>) -> (c: Context<NotCurrentContext>)
        ensures
            c.held() == context,
            c.target() == surface,
    {
        Context { context, surface, phantom: PhantomData }
    }

    /// The native context inside.
    pub fn inner(&self) -> (c: &EglContext)
        ensures
            *c == self.held(),
    {
        &self.context
    }

    /// The window surface inside.
    pub fn surface(&self) -> (s: &Surface<Window>)
        ensures
            *s == self.target(),
    {
        &self.surface
    }

    /// The call that makes the context current with its surface.
    pub fn make_current_call(&self) -> (r: BindRequest)
        ensures
            r == (BindRequest {
                display: self.held()@.display.handle,
                draw: self.target()@.surface,
                read: self.target()@.surface,
                context: self.held()@.context,
            }),
    {
        self.context.make_current_call(&self.surface)
    }

    /// Concludes making the context current: `ret` is what the call of
    /// [`Context::make_current_call`] answered.
    ///
    /// After a success the context may be current, and the swap interval to
    /// set comes with it, which there is where the surface has not been
    /// current; what that call answers goes to
    /// [`Surface::swap_interval_set`].  After a failure the context comes
    /// back as it was.
    pub fn make_current(self, ret: NativeResult) -> (r: Result<
        (Context<PossiblyCurrentContext>, Option<i32>),
        (Self, Error),
    >)
        ensures
            match bind_failure(Some(ret)) {
                Some(f) => r matches Err((c, e)) && c == self && e@ == f,
                None => r matches Ok((c, interval)) && c.held() == self.held() && c.target()
                    == self.target() && (interval == interval_on_bind(
                    true,
                    self.target()@.kind,
                    self.target()@.attribs,
                ) || interval == interval_on_bind(
                    false,
                    self.target()@.kind,
                    self.target()@.attribs,
                )),
            },
    {
        match self.context.make_current(&self.surface, ret) {
            Ok(interval) => Ok(
                (
                    Context { context: self.context, surface: self.surface, phantom: PhantomData },
                    interval,
                ),
            ),
            Err(err) => Err((self, err)),
        }
    }

    /// The call that stops the context from being current; none where it is
    /// not current, which leaves everything as it is.
    pub fn make_not_current_call(&self, current: usize) -> (r: Option<BindRequest>)
        ensures
            r == unbind_plan(self.held()@.display.handle, self.held()@.context, current),
    {
        self.context.make_not_current_call(current)
    }

    /// Concludes stopping the context from being current: `ret` is what the
    /// call of [`Context::make_not_current_call`] answered, and is not
    /// looked at where there was none.  After a success the context is not
    /// current; after a failure it comes back as it was.
    pub fn make_not_current(self, current: usize, ret: NativeResult) -> (r: Result<
        Context<NotCurrentContext>,
        (Self, Error),
    >)
        ensures
            match bind_failure(unbind_answer(self.held()@.context, current, ret)) {
                Some(f) => r matches Err((c, e)) && c == self && e@ == f,
                None => r matches Ok(c) && c.held() == self.held() && c.target()
                    == self.target(),
            },
    {
        match self.context.make_not_current(current, ret) {
            Ok(()) => Ok(
                Context { context: self.context, surface: self.surface, phantom: PhantomData },
            ),
            Err(err) => Err((self, err)),
        }
    }

    /// The same context as one that is not current.  Nothing is checked and
    /// nothing is called.
    pub fn treat_as_not_current(self) -> (c: Context<NotCurrentContext>)
        ensures
            c.held() == self.held(),
            c.target() == self.target(),
    {
        Context { context: self.context, surface: self.surface, phantom: PhantomData }
    }

    /// The same context as one that may be current.  Nothing is checked and
    /// nothing is called.
    pub fn treat_as_current(self) -> (c: Context<PossiblyCurrentContext>)
        ensures
            c.held() == self.held(),
            c.target() == self.target(),
    {
        Context { context: self.context, surface: self.surface, phantom: PhantomData }
    }

    /// Whether the context is the one that is current on the thread, where
    /// `current` is what the native side reports as current there.
    pub fn is_current(&self, current: usize) -> (b: bool)
        ensures
            b == (current == self.held()@.context),
    {
        self.context.is_current(current)
    }

    /// The API that the context renders with.
    pub fn get_api(&self) -> (api: Api)
        ensures
            api == self.held()@.config.version.0,
    {
        self.context.get_api()
    }
}

impl Context<PossiblyCurrentContext> {
    /// The arguments of the call that presents the surface.
    pub fn swap_buffers_call(&self) -> (r: Result<SwapRequest, Error>)
        ensures
            match self.target().swap_refusal() {
                Some(f) => r matches Err(e) && e@ == f,
                None => r matches Ok(q) && q.display == self.target()@.display.handle && q.surface
                    == self.target()@.surface && q.rects@ == Seq::<i32>::empty() && q.n_rects
                    == 0,
            },
    {
        self.surface.swap_buffers_call()
    }

    /// Concludes presenting the surface; see [`Surface::swap_buffers`].
    pub fn swap_buffers(&self, ret: NativeResult) -> (r: Result<(), Error>)
        ensures
            match self.target().swap_refusal() {
                Some(f) => r matches Err(e) && e@ == f,
                None => match swap_failure(NativeCall::SwapBuffers, ret) {
                    Some(f) => r matches Err(e) && e@ == f,
                    None => r is Ok,
                },
            },
    {
        self.surface.swap_buffers(ret)
    }

    /// The format of the frame buffer that the context renders to.
    pub fn get_pixel_format(&self) -> (f: PixelFormat)
        ensures
            f == PixelFormat::of(self.held()@.attribs),
    {
        PixelFormat::from_attribs(&self.context.get_config().attribs)
    }

    /// The size to hand to the platform after the window was resized.
    pub fn resize(&self, width: u32, height: u32) -> (size: (u32, u32))
        ensures
            size == (width, height),
    {
        (width, height)
    }

    /// The name of an OpenGL function as the native lookup takes it.
    pub fn get_proc_address(&self, addr: &str) -> (name: Vec<u8>)
        requires
            plain_name(addr.spec_bytes()),
        ensures
            name@ == addr.spec_bytes().push(0u8),
    {
        self.context.get_proc_address(addr)
    }
}

/// A context with a window behind it, which may or may not be kept beside
/// it.
#[derive(Debug)]
pub struct ContextWrapper<T: ContextCurrentState, W> {
    pub(crate) context: Context<T>,
    pub(crate) window: W,
}

/// A context and the window it renders to.
pub type WindowedContext<T, W> = ContextWrapper<T, W>;

/// A context whose window is kept elsewhere.
pub type RawContext<T> = ContextWrapper<T, ()>;

impl<T: ContextCurrentState, W> ContextWrapper<T, W> {
    /// The context inside.
    pub closed spec fn held(&self) -> Context<T> {
        self.context
    }

    /// The window inside.
    pub closed spec fn kept(&self) -> W {
        self.window
    }

    /// The window.
    pub fn window(&self) -> (w: &W)
        ensures
            *w == self.kept(),
    {
        &self.window
    }

    /// Parts the window from the context, for a context that is to go to
    /// another thread.  The context has to be dropped before the window.
    pub fn split(self) -> (r: (RawContext<T>, W))
        ensures
            r.0.held() == self.held(),
            r.1 == self.kept(),
    {
        (ContextWrapper { context: self.context, window: () }, self.window)
    }

    /// The context.
    pub fn context(&self) -> (c: &Context<T>)
        ensures
            *c == self.held(),
    {
        &self.context
    }

    /// The call that makes the context current with its surface.
    pub fn make_current_call(&self) -> (r: BindRequest)
        ensures
            r == (BindRequest {
                display: self.held().held()@.display.handle,
                draw: self.held().target()@.surface,
                read: self.held().target()@.surface,
                context: self.held().held()@.context,
            }),
    {
        self.context.make_current_call()
    }

    /// Concludes making the context current; see [`Context::make_current`].
    /// The context that was current before is current no longer.
    pub fn make_current(self, ret: NativeResult) -> (r: Result<
        (ContextWrapper<PossiblyCurrentContext, W>, Option<i32>),
        (Self, Error),
    >)
        ensures
            match bind_failure(Some(ret)) {
                Some(f) => r matches Err((c, e)) && c == self && e@ == f,
                None => r matches Ok((c, interval)) && c.kept() == self.kept() && c.held().held()
                    == self.held().held() && c.held().target() == self.held().target() && (
                interval == interval_on_bind(
                    true,
                    self.held().target()@.kind,
                    self.held().target()@.attribs,
                ) || interval == interval_on_bind(
                    false,
                    self.held().target()@.kind,
                    self.held().target()@.attribs,
                )),
            },
    {
        let window = self.window;
        match self.context.make_current(ret) {
            Ok((context, interval)) => Ok((ContextWrapper { window, context }, interval)),
            Err((context, err)) => Err((ContextWrapper { window, context }, err)),
        }
    }

    /// The call that stops the context from being current; none where it is
    /// not current.
    pub fn make_not_current_call(&self, current: usize) -> (r: Option<BindRequest>)
        ensures
            r == unbind_plan(
                self.held().held()@.display.handle,
                self.held().held()@.context,
                current,
            ),
    {
        self.context.make_not_current_call(current)
    }

    /// Concludes stopping the context from being current; see
    /// [`Context::make_not_current`].  Nothing is done for a context that is
    /// not current.
    pub fn make_not_current(self, current: usize, ret: NativeResult) -> (r: Result<
        ContextWrapper<NotCurrentContext, W>,
        (Self, Error),
    >)
        ensures
            match bind_failure(unbind_answer(self.held().held()@.context, current, ret)) {
                Some(f) => r matches Err((c, e)) && c == self && e@ == f,
                None => r matches Ok(c) && c.kept() == self.kept() && c.held().held()
                    == self.held().held() && c.held().target() == self.held().target(),
            },
    {
        let window = self.window;
        match self.context.make_not_current(current, ret) {
            Ok(context) => Ok(ContextWrapper { window, context }),
            Err((context, err)) => Err((ContextWrapper { window, context }, err)),
        }
    }

    /// The same context as one that is not current, whether it is or not.
    /// Nothing is checked and nothing is called.
    pub fn treat_as_not_current(self) -> (c: ContextWrapper<NotCurrentContext, W>)
        ensures
            c.kept() == self.kept(),
            c.held().held() == self.held().held(),
            c.held().target() == self.held().target(),
    {
        ContextWrapper { context: self.context.treat_as_not_current(), window: self.window }
    }

    /// Whether the context is the one that is current on the thread, where
    /// `current` is what the native side reports as current there.
    pub fn is_current(&self, current: usize) -> (b: bool)
        ensures
            b == (current == self.held().held()@.context),
    {
        self.context.is_current(current)
    }

    /// The API that the context renders with.
    pub fn get_api(&self) -> (api: Api)
        ensures
            api == self.held().held()@.config.version.0,
    {
        self.context.get_api()
    }
}

impl<W> ContextWrapper<PossiblyCurrentContext, W> {
    /// The arguments of the call that presents the surface.
    pub fn swap_buffers_call(&self) -> (r: Result<SwapRequest, Error>)
        ensures
            match self.held().target().swap_refusal() {
                Some(f) => r matches Err(e) && e@ == f,
                None => r matches Ok(q) && q.display == self.held().target()@.display.handle
                    && q.surface == self.held().target()@.surface && q.rects@ == Seq::<
                    i32,
                >::empty() && q.n_rects == 0,
            },
    {
        self.context.swap_buffers_call()
    }

    /// Concludes presenting the surface: `ret` is what the call of
    /// [`ContextWrapper::swap_buffers_call`] answered.
    pub fn swap_buffers(&self, ret: NativeResult) -> (r: Result<(), Error>)
        ensures
            match self.held().target().swap_refusal() {
                Some(f) => r matches Err(e) && e@ == f,
                None => match swap_failure(NativeCall::SwapBuffers, ret) {
                    Some(f) => r matches Err(e) && e@ == f,
                    None => r is Ok,
                },
            },
    {
        self.context.swap_buffers(ret)
    }

    /// The format of the frame buffer that the context renders to.
    pub fn get_pixel_format(&self) -> (f: PixelFormat)
        ensures
            f == PixelFormat::of(self.held().held()@.attribs),
    {
        self.context.get_pixel_format()
    }

    /// The size to hand to the platform after the window was resized.
    pub fn resize(&self, size: PhysicalSize) -> (r: (u32, u32))
        ensures
            r == (size.width, size.height),
    {
        self.context.resize(size.width, size.height)
    }

    /// The name of an OpenGL function as the native lookup takes it: its
    /// bytes and a zero byte after them.
    pub fn get_proc_address(&self, addr: &str) -> (name: Vec<u8>)
        requires
            plain_name(addr.spec_bytes()),
        ensures
            name@ == addr.spec_bytes().push(0u8),
    {
        self.context.get_proc_address(addr)
    }
}

/// What a caller asks of a context with a window.
#[derive(Debug)]
pub struct ContextBuilder<'a, T: ContextCurrentState> {
    pub gl_attr: ContextBuilderWrapper<&'a Context<T>>,
}

impl<'a, T: ContextCurrentState> ContextBuilder<'a, T> {
    /// The request as the native context is created with it: the context to
    /// share objects with is the native one inside.
    pub fn map_sharing(&self) -> (r: ContextBuilderWrapper<&'a EglContext>)
        ensures
            r.debug == self.gl_attr.debug,
            r.robustness == self.gl_attr.robustness,
            r.sharing == match self.gl_attr.sharing {
                Some(other) => Some(&other.held()),
                None => None,
            },
    {
        ContextBuilderWrapper {
            sharing: match self.gl_attr.sharing {
                Some(other) => Some(&other.context),
                None => None,
            },
            debug: self.gl_attr.debug,
            robustness: self.gl_attr.robustness,
        }
    }

    /// Pairs the window with the context and the surface that were made for
    /// it.  The new context is not current.
    pub fn build_windowed<W>(self, window: W, context: EglContext, surface: Surface<Window>) -> (w:
        WindowedContext<NotCurrentContext, W>)
        ensures
            w.kept() == window,
            w.held().held() == context,
            w.held().target() == surface,
    {
        ContextWrapper { window, context: Context { context, surface, phantom: PhantomData } }
    }
}

} // verus!
