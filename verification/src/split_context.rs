//! A context on its own, whose type tells what may be current and which
//! kinds of surface it can be used with.
//!
//! Only a context that is not current may be handed to another thread.  The
//! type of a context follows what was done with it: making it current gives a
//! context whose type says so, and stopping it from being current gives one
//! whose type says that it is not.  A call that failed may have left
//! anything current, so the context then comes back as one that may be.

pub mod context_is_current;
pub mod supports_pbuffers;
pub mod supports_surfaceless;
pub mod supports_window_surfaces;
pub mod surface_in_use;

use crate::config::{Api, ConfigAttribs, ConfigWrapper};
use crate::context::{ContextBuilderWrapper, PixelFormat};
use crate::egl::config::Config;
use crate::egl::context::{
    context_attribs, creation_failure, plain_name, Context, ContextView, Creating,
};
use crate::egl::display::api_bound;
use crate::egl::guard::{
    bind_failure, unbind_answer, unbind_plan, BindRequest, NativeResult,
};
use crate::egl::surface::{interval_on_bind, Surface};
use crate::error::{Error, ErrorType, Failure};
use crate::ffi;
use crate::split_context::context_is_current::{
    ContextIsCurrentTrait, ContextIsCurrentYesTrait, Currency,
};
use crate::split_context::supports_pbuffers::SupportsPBuffersTrait;
use crate::split_context::supports_surfaceless::SupportsSurfacelessTrait;
use crate::split_context::supports_window_surfaces::SupportsWindowSurfacesTrait;
use crate::split_context::surface_in_use::SurfaceInUseTrait;
use crate::surface::{PBuffer, SurfaceTypeTrait, Window};
use std::marker::PhantomData;
use vstd::prelude::*;
use vstd::string::StringSliceAdditionalSpecFns;

verus! {

/// The kinds of use that a context is created for, as a set of bits.
#[derive(Clone, Copy, Debug, PartialEq, Eq)]
pub struct ContextSupports {
    pub pbuffers: bool,
    pub window_surfaces: bool,
    pub surfaceless: bool,
}

/// The kinds of use that the three types stand for.
pub open spec fn supports_of<
    PBT: SupportsPBuffersTrait,
    WST: SupportsWindowSurfacesTrait,
    ST: SupportsSurfacelessTrait,
>() -> ContextSupports {
    ContextSupports {
        pbuffers: PBT::offered(),
        window_surfaces: WST::offered(),
        surfaceless: ST::offered(),
    }
}

/// The kinds of use that the three types stand for.
pub fn context_supports<
    PBT: SupportsPBuffersTrait,
    WST: SupportsWindowSurfacesTrait,
    ST: SupportsSurfacelessTrait,
>() -> (s: ContextSupports)
    ensures
        s == supports_of::<PBT, WST, ST>(),
{
    ContextSupports {
        pbuffers: PBT::supported(),
        window_surfaces: WST::supported(),
        surfaceless: ST::supported(),
    }
}

/// A surface of kind `T` whose type tells whether it may be in use.
#[derive(Debug)]
pub struct LighterSurface<T: SurfaceTypeTrait, IU: SurfaceInUseTrait> {
    surface: Surface<T>,
    phantom: PhantomData<IU>,
}

/// A window surface whose type tells whether it may be in use.
pub type LighterWindowSurface<IU> = LighterSurface<Window, IU>;

/// A buffer off the screen whose type tells whether it may be in use.
pub type LighterPBuffer<IU> = LighterSurface<PBuffer, IU>;

impl<T: SurfaceTypeTrait, IU: SurfaceInUseTrait> LighterSurface<T, IU> {
    /// The surface inside.
    pub closed spec fn held(&self) -> Surface<T> {
        self.surface
    }

    /// The surface inside.
    pub fn inner(&self) -> (s: &Surface<T>)
        ensures
            *s == self.held(),
    {
        &self.surface
    }

    /// Wraps a surface, taking the caller's word for whether it is in use.
    pub fn new(surface: Surface<T>) -> (s: Self)
        ensures
            s.held() == surface,
    {
        LighterSurface { surface, phantom: PhantomData }
    }

    /// The same surface as one that may be in use.  Nothing is checked.
    pub fn treat_as_current<IU2: SurfaceInUseTrait>(self) -> (s: LighterSurface<T, IU2>)
        ensures
            s.held() == self.held(),
    {
        LighterSurface { surface: self.surface, phantom: PhantomData }
    }
}

/// A context whose type tells whether it may be current (`IC`) and whether
/// it can be used with buffers off the screen (`PBT`), with window surfaces
/// (`WST`) and without a surface (`ST`).
#[derive(Debug)]
pub struct SplitContext<
    IC: ContextIsCurrentTrait,
    PBT: SupportsPBuffersTrait,
    WST: SupportsWindowSurfacesTrait,
    ST: SupportsSurfacelessTrait,
> {
    pub(crate) context: Context,
    pub(crate) phantom: PhantomData<(IC, PBT, WST, ST)>,
}

/// A context together with the surface it is used with.
#[derive(Debug)]
pub struct UnifiedContext<
    IC: ContextIsCurrentTrait,
    PBT: SupportsPBuffersTrait,
    WST: SupportsWindowSurfacesTrait,
    ST: SupportsSurfacelessTrait,
    S,
> {
    pub context: SplitContext<IC, PBT, WST, ST>,
    pub surface: S,
}

impl<
    IC: ContextIsCurrentTrait,
    PBT: SupportsPBuffersTrait,
    WST: SupportsWindowSurfacesTrait,
    ST: SupportsSurfacelessTrait,
> SplitContext<IC, PBT, WST, ST> {
    /// The context inside.
    pub closed spec fn held(&self) -> Context {
        self.context
    }

    /// What the type says of the context.
    pub open spec fn currency(&self) -> Currency {
        IC::currency()
    }

    /// The context inside.
    #[inline]
    pub fn inner(&self) -> (c: &Context)
        ensures
            *c == self.held(),
    {
        &self.context
    }

    /// Wraps a context that was just created, and so is current nowhere.
    pub fn new(context: Context) -> (s: SplitContext<
        crate::split_context::context_is_current::No,
        PBT,
        WST,
        ST,
    >)
        ensures
            s.held() == context,
            s.currency() == Currency::NotCurrent,
    {
        SplitContext { context, phantom: PhantomData }
    }

    /// Whether the context is the one that is current on the thread, where
    /// `current` is what the native side reports as current there.
    #[inline]
    pub fn is_current(&self, current: usize) -> (b: bool)
        ensures
            b == (current == self.held()@.context),
    {
        self.context.is_current(current)
    }

    /// The format of the frame buffer that the context renders to.
    #[inline]
    pub fn get_pixel_format(&self) -> (f: PixelFormat)
        ensures
            f == PixelFormat::of(self.held()@.attribs),
    {
        PixelFormat::from_attribs(&self.context.get_config().attribs)
    }

    /// The API that the context renders with.
    #[inline]
    pub fn get_api(&self) -> (api: Api)
        ensures
            api == self.held()@.config.version.0,
    {
        self.context.get_api()
    }

    /// The call that stops the context from being current; see
    /// [`Context::make_not_current_call`].
    pub fn make_not_current_call(&self, current: usize) -> (r: Option<BindRequest>)
        ensures
            r == unbind_plan(self.held()@.display.handle, self.held()@.context, current),
    {
        self.context.make_not_current_call(current)
    }

    /// Concludes stopping the context from being current.  Nothing is done
    /// for a context that is not current, which is a success.  After a
    /// success the context is not current; after a failure it may be.
    #[inline]
    pub fn make_not_current(self, current: usize, ret: NativeResult) -> (r: Result<
        SplitContext<crate::split_context::context_is_current::No, PBT, WST, ST>,
        (
            SplitContext<
                crate::split_context::context_is_current::PossiblyAndSurfaceBound,
                PBT,
                WST,
                ST,
            >,
            Error,
        ),
    >)
        ensures
            match bind_failure(unbind_answer(self.held()@.context, current, ret)) {
                Some(f) => r matches Err((c, e)) && c.held() == self.held() && e@ == f,
                None => r matches Ok(c) && c.held() == self.held(),
            },
    {
        match self.context.make_not_current(current, ret) {
            Ok(()) => Ok(SplitContext { context: self.context, phantom: PhantomData }),
            Err(e) => Err((self.treat_as_current(), e)),
        }
    }

    /// The same context as one that is not current.  Nothing is checked and
    /// nothing is called: the caller keeps track of what is current.
    #[inline]
    pub fn treat_as_not_current(self) -> (c: SplitContext<
        crate::split_context::context_is_current::No,
        PBT,
        WST,
        ST,
    >)
        ensures
            c.held() == self.held(),
            c.currency() == Currency::NotCurrent,
    {
        SplitContext { context: self.context, phantom: PhantomData }
    }

    /// The same context as one that may be current.  Nothing is checked and
    /// nothing is called: the caller keeps track of what is current.
    #[inline]
    pub fn treat_as_current<IC2: ContextIsCurrentYesTrait>(self) -> (c: SplitContext<
        IC2,
        PBT,
        WST,
        ST,
    >)
        ensures
            c.held() == self.held(),
            c.currency().may_be_current(),
    {
        proof {
            IC2::may_be_current();
        }
        SplitContext { context: self.context, phantom: PhantomData }
    }
}

impl<
    IC: ContextIsCurrentTrait,
    PBT: SupportsPBuffersTrait,
    ST: SupportsSurfacelessTrait,
> SplitContext<IC, PBT, crate::split_context::supports_window_surfaces::Yes, ST> {
    /// The call that makes the context current with a window surface.
    pub fn make_current_surface_call<IU: SurfaceInUseTrait>(
        &self,
        surface: &LighterWindowSurface<IU>,
    ) -> (r: BindRequest)
        ensures
            r == (BindRequest {
                display: self.held()@.display.handle,
                draw: surface.held()@.surface,
                read: surface.held()@.surface,
                context: self.held()@.context,
            }),
    {
        self.context.make_current_call(surface.inner())
    }

    /// Concludes making the context current with a window surface: `ret` is
    /// what the call of [`SplitContext::make_current_surface_call`]
    /// answered.
    ///
    /// Either way the context and the surface come back as ones that may be
    /// current.  After a success the swap interval to set comes with them,
    /// which there is for a surface that has not been current; what that
    /// call answers goes to [`Surface::swap_interval_set`].
    #[inline]
    pub fn make_current_surface<IU: SurfaceInUseTrait>(
        self,
        surface: LighterWindowSurface<IU>,
        ret: NativeResult,
    ) -> (r: Result<
        (
            SplitContext<
                crate::split_context::context_is_current::PossiblyAndSurfaceBound,
                PBT,
                crate::split_context::supports_window_surfaces::Yes,
                ST,
            >,
            LighterWindowSurface<crate::split_context::surface_in_use::Possibly>,
            Option<i32>,
        ),
        (
            SplitContext<
                crate::split_context::context_is_current::PossiblyAndSurfaceBound,
                PBT,
                crate::split_context::supports_window_surfaces::Yes,
                ST,
            >,
            LighterWindowSurface<crate::split_context::surface_in_use::Possibly>,
            Error,
        ),
    >)
        ensures
            match bind_failure(Some(ret)) {
                Some(f) => r matches Err((c, s, e)) && c.held() == self.held() && s.held()
                    == surface.held() && e@ == f,
                None => r matches Ok((c, s, interval)) && c.held() == self.held() && s.held()
                    == surface.held() && (interval == interval_on_bind(
                    true,
                    surface.held()@.kind,
                    surface.held()@.attribs,
                ) || interval == interval_on_bind(
                    false,
                    surface.held()@.kind,
                    surface.held()@.attribs,
                )),
            },
    {
        match self.context.make_current(surface.inner(), ret) {
            Ok(interval) => Ok((self.treat_as_current(), surface.treat_as_current(), interval)),
            Err(err) => Err((self.treat_as_current(), surface.treat_as_current(), err)),
        }
    }

    /// The context together with a window surface.
    #[inline]
    pub fn unify_with_window<IU: SurfaceInUseTrait>(
        self,
        surface: LighterWindowSurface<IU>,
    ) -> (u: UnifiedContext<
        IC,
        PBT,
        crate::split_context::supports_window_surfaces::Yes,
        ST,
        LighterWindowSurface<IU>,
    >)
        ensures
            u.context == self,
            u.surface == surface,
    {
        UnifiedContext { context: self, surface }
    }
}

impl<
    IC: ContextIsCurrentTrait,
    WST: SupportsWindowSurfacesTrait,
    ST: SupportsSurfacelessTrait,
> SplitContext<IC, crate::split_context::supports_pbuffers::Yes, WST, ST> {
    /// The call that makes the context current with a buffer off the
    /// screen.
    pub fn make_current_pbuffer_call<IU: SurfaceInUseTrait>(
        &self,
        pbuffer: &LighterPBuffer<IU>,
    ) -> (r: BindRequest)
        ensures
            r == (BindRequest {
                display: self.held()@.display.handle,
                draw: pbuffer.held()@.surface,
                read: pbuffer.held()@.surface,
                context: self.held()@.context,
            }),
    {
        self.context.make_current_call(pbuffer.inner())
    }

    /// Concludes making the context current with a buffer off the screen:
    /// `ret` is what the call of [`SplitContext::make_current_pbuffer_call`]
    /// answered.  Either way the context and the buffer come back as ones
    /// that may be current.
    #[inline]
    pub fn make_current_pbuffer<IU: SurfaceInUseTrait>(
        self,
        pbuffer: LighterPBuffer<IU>,
        ret: NativeResult,
    ) -> (r: Result<
        (
            SplitContext<
                crate::split_context::context_is_current::Possibly,
                crate::split_context::supports_pbuffers::Yes,
                WST,
                ST,
            >,
            LighterPBuffer<crate::split_context::surface_in_use::Possibly>,
        ),
        (
            SplitContext<
                crate::split_context::context_is_current::PossiblyAndSurfaceBound,
                crate::split_context::supports_pbuffers::Yes,
                WST,
                ST,
            >,
            LighterPBuffer<crate::split_context::surface_in_use::Possibly>,
            Error,
        ),
    >)
        ensures
            match bind_failure(Some(ret)) {
                Some(f) => r matches Err((c, s, e)) && c.held() == self.held() && s.held()
                    == pbuffer.held() && e@ == f,
                None => r matches Ok((c, s)) && c.held() == self.held() && s.held()
                    == pbuffer.held(),
            },
    {
        match self.context.make_current(pbuffer.inner(), ret) {
            Ok(_) => Ok((self.treat_as_current(), pbuffer.treat_as_current())),
            Err(err) => Err((self.treat_as_current(), pbuffer.treat_as_current(), err)),
        }
    }

    /// The context together with a buffer off the screen.
    #[inline]
    pub fn unify_with_pbuffer<IU: SurfaceInUseTrait>(self, pbuffer: LighterPBuffer<IU>) -> (u:
        UnifiedContext<
        IC,
        crate::split_context::supports_pbuffers::Yes,
        WST,
        ST,
        LighterPBuffer<IU>,
    >)
        ensures
            u.context == self,
            u.surface == pbuffer,
    {
        UnifiedContext { context: self, surface: pbuffer }
    }
}

impl<
    IC: ContextIsCurrentTrait,
    PBT: SupportsPBuffersTrait,
    WST: SupportsWindowSurfacesTrait,
> SplitContext<IC, PBT, WST, crate::split_context::supports_surfaceless::Yes> {
    /// The call that makes the context current without a surface.
    pub fn make_current_surfaceless_call(&self) -> (r: BindRequest)
        ensures
            r == (BindRequest {
                display: self.held()@.display.handle,
                draw: ffi::NO_SURFACE,
                read: ffi::NO_SURFACE,
                context: self.held()@.context,
            }),
    {
        self.context.make_current_surfaceless_call()
    }

    /// Concludes making the context current without a surface: `ret` is what
    /// the call of [`SplitContext::make_current_surfaceless_call`] answered.
    /// Either way the context comes back as one that may be current.
    #[inline]
    pub fn make_current_surfaceless(self, ret: NativeResult) -> (r: Result<
        SplitContext<
            crate::split_context::context_is_current::Possibly,
            PBT,
            WST,
            crate::split_context::supports_surfaceless::Yes,
        >,
        (
            SplitContext<
                crate::split_context::context_is_current::PossiblyAndSurfaceBound,
                PBT,
                WST,
                crate::split_context::supports_surfaceless::Yes,
            >,
            Error,
        ),
    >)
        ensures
            match bind_failure(Some(ret)) {
                Some(f) => r matches Err((c, e)) && c.held() == self.held() && e@ == f,
                None => r matches Ok(c) && c.held() == self.held(),
            },
    {
        match self.context.make_current_surfaceless(ret) {
            Ok(()) => Ok(self.treat_as_current()),
            Err(err) => Err((self.treat_as_current(), err)),
        }
    }

    /// The context on its own, as one that is used without a surface.
    #[inline]
    pub fn unify(self) -> (u: UnifiedContext<
        IC,
        PBT,
        WST,
        crate::split_context::supports_surfaceless::Yes,
        (),
    >)
        ensures
            u.context == self,
    {
        UnifiedContext { context: self, surface: () }
    }
}

impl<
    IC: ContextIsCurrentYesTrait,
    PBT: SupportsPBuffersTrait,
    WST: SupportsWindowSurfacesTrait,
    ST: SupportsSurfacelessTrait,
> SplitContext<IC, PBT, WST, ST> {
    /// The name of an OpenGL function as the native lookup takes it: its
    /// bytes and a zero byte after them.  Only a context that may be current
    /// can look functions up.
    #[inline]
    pub fn get_proc_address(&self, addr: &str) -> (name: Vec<u8>)
        requires
            plain_name(addr.spec_bytes()),
        ensures
            name@ == addr.spec_bytes().push(0u8),
    {
        self.context.get_proc_address(addr)
    }
}

impl<PBT: SupportsPBuffersTrait, ST: SupportsSurfacelessTrait> SplitContext<
    crate::split_context::context_is_current::PossiblyAndSurfaceBound,
    PBT,
    crate::split_context::supports_window_surfaces::Yes,
    ST,
> {
    /// Tells the context that its surface has a new size.  An EGL context
    /// takes the size from its surface, so that nothing is to be done.
    #[inline]
    pub fn update_after_resize(&self) {
    }
}

/// A context is being created that will be a [`SplitContext`].
#[derive(Debug)]
pub struct LighterCreating<
    PBT: SupportsPBuffersTrait,
    WST: SupportsWindowSurfacesTrait,
    ST: SupportsSurfacelessTrait,
> {
    creating: Creating,
    supports: ContextSupports,
    phantom: PhantomData<(PBT, WST, ST)>,
}

impl<
    PBT: SupportsPBuffersTrait,
    WST: SupportsWindowSurfacesTrait,
    ST: SupportsSurfacelessTrait,
> LighterCreating<PBT, WST, ST> {
    /// The native call to make.
    pub closed spec fn pending(&self) -> Creating {
        self.creating
    }

    /// The kinds of use that the context is created for.
    pub closed spec fn wanted(&self) -> ContextSupports {
        self.supports
    }

    /// The native call to make.
    pub fn creating(&self) -> (c: &Creating)
        ensures
            *c == self.pending(),
    {
        &self.creating
    }

    /// The kinds of use that the context is created for.
    pub fn supports(&self) -> (s: ContextSupports)
        ensures
            s == self.wanted(),
    {
        self.supports
    }

    /// Takes the handle that the native side returned, and `code`, the
    /// native error at that moment.  The new context is not current.
    pub fn created(self, context: usize, code: u32) -> (r: Result<
        SplitContext<crate::split_context::context_is_current::No, PBT, WST, ST>,
        Error,
    >)
        ensures
            match creation_failure(context, code) {
                Some(f) => r matches Err(e) && e@ == f,
                None => r matches Ok(c) && c.held()@ == (ContextView {
                    display: self.pending().shown(),
                    context,
                    config: self.pending().chosen(),
                    attribs: self.pending().offered(),
                }),
            },
    {
        match self.creating.created(context, code) {
            Ok(context) => Ok(SplitContext { context, phantom: PhantomData }),
            Err(e) => Err(e),
        }
    }
}

/// What a caller asks of a context that will be a [`SplitContext`].
#[derive(Debug)]
pub struct LighterContextBuilder<
    'a,
    IC: ContextIsCurrentTrait,
    PBT: SupportsPBuffersTrait,
    WST: SupportsWindowSurfacesTrait,
    ST: SupportsSurfacelessTrait,
> {
    pub gl_attr: ContextBuilderWrapper<&'a SplitContext<IC, PBT, WST, ST>>,
}

/// Builders of contexts that will be [`SplitContext`]s.
pub trait LighterContextBuilderTrait: Sized {
    /// The context to share objects with, or the "no context" sentinel.
    spec fn sharing(&self) -> usize;

    /// The request, without the context to share with.
    spec fn request(&self) -> ContextBuilderWrapper<()>;

    /// Starts creating a context for the config `conf`, for the kinds of use
    /// that the three last arguments stand for.  `bound` is what making the
    /// API of the config current answered.
    fn build_lighter<
        PBT2: SupportsPBuffersTrait,
        WST2: SupportsWindowSurfacesTrait,
        ST2: SupportsSurfacelessTrait,
    >(
        self,
        conf: ConfigWrapper<&Config, &ConfigAttribs>,
        bound: bool,
        _pbuffer_support: PBT2,
        _window_surface_support: WST2,
        _surfaceless_support: ST2,
    ) -> (r: Result<LighterCreating<PBT2, WST2, ST2>, Error>)
        ensures
            ({
                let d = conf.config@.display;
                if !api_bound(conf.attribs.version.0, d.version, bound) {
                    r matches Err(e) && e@ == Failure::single(ErrorType::VersionNotSupported)
                } else {
                    match context_attribs(
                        d,
                        conf.attribs.version,
                        self.request().robustness,
                        self.request().debug,
                        conf.attribs.release_behavior,
                    ) {
                        Err(f) => r matches Err(e) && e@ == f,
                        Ok(list) => r matches Ok(next) && next.wanted() == supports_of::<
                            PBT2,
                            WST2,
                            ST2,
                        >() && next.pending().shown() == d && next.pending().chosen()
                            == conf.config@ && next.pending().offered() == *conf.attribs
                            && next.pending().list() == list && next.pending().sharing()
                            == self.sharing(),
                    }
                }
            }),
    ;
}

impl<
    'a,
    IC: ContextIsCurrentTrait,
    PBT: SupportsPBuffersTrait,
    WST: SupportsWindowSurfacesTrait,
    ST: SupportsSurfacelessTrait,
> LighterContextBuilderTrait for LighterContextBuilder<'a, IC, PBT, WST, ST> {
    open spec fn sharing(&self) -> usize {
        match self.gl_attr.sharing {
            Some(other) => other.held()@.context,
            None => ffi::NO_CONTEXT,
        }
    }

    open spec fn request(&self) -> ContextBuilderWrapper<()> {
        ContextBuilderWrapper {
            sharing: None,
            debug: self.gl_attr.debug,
            robustness: self.gl_attr.robustness,
        }
    }

    #[inline]
    fn build_lighter<
        PBT2: SupportsPBuffersTrait,
        WST2: SupportsWindowSurfacesTrait,
        ST2: SupportsSurfacelessTrait,
    >(
        self,
        conf: ConfigWrapper<&Config, &ConfigAttribs>,
        bound: bool,
        _pbuffer_support: PBT2,
        _window_surface_support: WST2,
        _surfaceless_support: ST2,
    ) -> (r: Result<LighterCreating<PBT2, WST2, ST2>, Error>) {
        let supports = context_supports::<PBT2, WST2, ST2>();
        let cb = ContextBuilderWrapper {
            sharing: match self.gl_attr.sharing {
                Some(other) => Some(other.inner()),
                None => None,
            },
            debug: self.gl_attr.debug,
            robustness: self.gl_attr.robustness,
        };
        match Context::new(cb, conf, bound) {
            Ok(creating) => Ok(LighterCreating { creating, supports, phantom: PhantomData }),
            Err(e) => Err(e),
        }
    }
}

} // verus!
