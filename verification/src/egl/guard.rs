//! What is current on a thread, and the guard that keeps a handle from being
//! destroyed while it is current.

use crate::error::{Error, ErrorType, Failure, NativeCall, OsError};
use crate::ffi;
use vstd::prelude::*;

verus! {

/// What a native call that succeeds or fails answered: `Ok`, or the native
/// error that was read after the failure.
pub type NativeResult = Result<(), u32>;

/// The context and the two surfaces that are current on the calling thread,
/// as the native side reports them, with the display they are current on.
/// Where nothing is current all four are the "no handle" sentinels.
#[derive(Clone, Copy, Debug, PartialEq, Eq)]
pub struct ThreadBinding {
    pub display: usize,
    pub draw: usize,
    pub read: usize,
    pub context: usize,
}

/// The arguments of a native call that makes a context and two surfaces
/// current.
#[derive(Clone, Copy, Debug, PartialEq, Eq)]
pub struct BindRequest {
    pub display: usize,
    pub draw: usize,
    pub read: usize,
    pub context: usize,
}

impl BindRequest {
    /// The request that leaves nothing current.
    pub open spec fn neutral(display: usize) -> BindRequest {
        BindRequest {
            display,
            draw: ffi::NO_SURFACE,
            read: ffi::NO_SURFACE,
            context: ffi::NO_CONTEXT,
        }
    }

    /// The request that leaves nothing current.
    pub fn unbind(display: usize) -> (r: BindRequest)
        ensures
            r == BindRequest::neutral(display),
    {
        BindRequest {
            display,
            draw: ffi::NO_SURFACE,
            read: ffi::NO_SURFACE,
            context: ffi::NO_CONTEXT,
        }
    }
}

impl ThreadBinding {
    /// Whether no context and no surface is current.
    pub open spec fn is_neutral(self) -> bool {
        self.context == ffi::NO_CONTEXT && self.draw == ffi::NO_SURFACE && self.read
            == ffi::NO_SURFACE
    }

    /// What is current after `request` was carried out, or after no request
    /// was made: a request that succeeded replaces what was current.
    pub open spec fn after(self, request: Option<BindRequest>) -> ThreadBinding {
        match request {
            Some(r) => ThreadBinding {
                display: if r.context == ffi::NO_CONTEXT {
                    ffi::NO_DISPLAY
                } else {
                    r.display
                },
                draw: r.draw,
                read: r.read,
                context: r.context,
            },
            None => self,
        }
    }

    /// Whether the context is the current one.
    pub open spec fn holds_context(self, context: usize) -> bool {
        self.context == context
    }

    /// Whether the surface is current for drawing or for reading.
    pub open spec fn holds_surface(self, surface: usize) -> bool {
        self.draw == surface || self.read == surface
    }
}

/// The call that stops `context` on `display` from being current, where
/// `current` is the context that is current on the thread: none where that
/// is another one.
pub open spec fn unbind_plan(display: usize, context: usize, current: usize) -> Option<
    BindRequest,
> {
    if current == context {
        Some(BindRequest::neutral(display))
    } else {
        None
    }
}

/// What is judged after [`unbind_plan`]: the answer `ret` of the call, where
/// there was one.
pub open spec fn unbind_answer(context: usize, current: usize, ret: NativeResult) -> Option<
    NativeResult,
> {
    if current == context {
        Some(ret)
    } else {
        None
    }
}

/// Stopping a context that is not the current one from being current asks
/// for no native call, succeeds whatever a call would have answered, and
/// leaves what is current as it is.
pub proof fn not_current_stays_not_current(
    display: usize,
    context: usize,
    current: ThreadBinding,
    ret: NativeResult,
)
    requires
        !current.holds_context(context),
    ensures
        unbind_plan(display, context, current.context) is None,
        bind_failure(unbind_answer(context, current.context, ret)) is None,
        current.after(unbind_plan(display, context, current.context)) == current,
{
}

/// Stopping the current context from being current asks for the call that
/// leaves nothing current; once that has succeeded, nothing is current.
pub proof fn current_becomes_not_current(display: usize, context: usize, current: ThreadBinding)
    requires
        current.holds_context(context),
    ensures
        unbind_plan(display, context, current.context) == Some(BindRequest::neutral(display)),
        bind_failure(unbind_answer(context, current.context, Ok(()))) is None,
        current.after(unbind_plan(display, context, current.context)).is_neutral(),
{
}

/// Judges a call that made something current, or that was left out:
/// `None` stands for a call that was not made, which is a success.  A lost
/// context is reported as such, any other failure as an OS-level error.
pub open spec fn bind_failure(ret: Option<NativeResult>) -> Option<Failure> {
    match ret {
        Some(Err(code)) => Some(
            Failure::single(
                if code == ffi::CONTEXT_LOST {
                    ErrorType::ContextLost
                } else {
                    ErrorType::OsError(OsError::Native { call: NativeCall::MakeCurrent, code })
                },
            ),
        ),
        _ => None,
    }
}

/// Judges a call that made something current, or that was left out.
pub fn check_make_current(ret: Option<NativeResult>) -> (r: Result<(), Error>)
    ensures
        match bind_failure(ret) {
            Some(f) => r matches Err(e) && e@ == f,
            None => r is Ok,
        },
{
    match ret {
        Some(Err(code)) => {
            if code == ffi::CONTEXT_LOST {
                Err(Error::new(ErrorType::ContextLost))
            } else {
                Err(Error::native(NativeCall::MakeCurrent, code))
            }
        },
        _ => Ok(()),
    }
}

/// Remembers what was current when a handle is about to be destroyed.
///
/// The guard is told which handles are about to go.  If one of them is
/// current, the guard gives up what it remembered, and what it asks for on
/// release is that nothing be current: a handle cannot stay current once it
/// is destroyed, so nothing is put back.
#[derive(Clone, Copy, Debug, PartialEq, Eq)]
pub struct MakeCurrentGuard {
    display: usize,
    old_display: usize,
    possibly_invalid: Option<(usize, usize, usize)>,
}

impl MakeCurrentGuard {
    /// The display that the handles to destroy belong to.
    pub closed spec fn target(&self) -> usize {
        self.display
    }

    /// What was current when the guard was made: display, draw surface, read
    /// surface, context.
    pub closed spec fn remembered(&self) -> Option<ThreadBinding> {
        match self.possibly_invalid {
            Some((draw, read, context)) => Some(
                ThreadBinding { display: self.old_display, draw, read, context },
            ),
            None => None,
        }
    }

    /// The display that was current when the guard was made.
    pub closed spec fn former_display(&self) -> usize {
        self.old_display
    }

    /// A guard that remembers `current` and changes nothing.
    pub fn new_keep(display: usize, current: ThreadBinding) -> (g: MakeCurrentGuard)
        ensures
            g.target() == display,
            g.former_display() == current.display,
            g.remembered() == Some(current),
    {
        MakeCurrentGuard {
            display,
            old_display: current.display,
            possibly_invalid: Some((current.draw, current.read, current.context)),
        }
    }

    /// Whether one of the handles is among what `b` holds current.  A surface
    /// counts only if it is a surface at all; the context is compared as it
    /// is.
    pub open spec fn any_same(b: ThreadBinding, draw: usize, read: usize, context: usize) -> bool {
        ||| (b.draw == draw && draw != ffi::NO_SURFACE)
        ||| (b.read == read && read != ffi::NO_SURFACE)
        ||| b.context == context
    }

    /// Gives up what is remembered if it holds one of these handles.
    pub fn if_any_same_then_invalidate(
        &mut self,
        draw_surface: usize,
        read_surface: usize,
        context: usize,
    )
        ensures
            final(self).target() == old(self).target(),
            final(self).former_display() == old(self).former_display(),
            final(self).remembered() == match old(self).remembered() {
                Some(b) => if MakeCurrentGuard::any_same(b, draw_surface, read_surface, context) {
                    None
                } else {
                    Some(b)
                },
                None => None,
            },
    {
        match self.possibly_invalid {
            Some((old_draw, old_read, old_context)) => {
                if (old_draw == draw_surface && draw_surface != ffi::NO_SURFACE) || (old_read
                    == read_surface && read_surface != ffi::NO_SURFACE) || old_context == context {
                    self.invalidate();
                }
            },
            None => {},
        }
    }

    /// Gives up what is remembered.
    pub fn invalidate(&mut self)
        ensures
            final(self).target() == old(self).target(),
            final(self).former_display() == old(self).former_display(),
            final(self).remembered() is None,
    {
        self.possibly_invalid = None;
    }

    /// The call to make before the handles are destroyed: none where the
    /// guard still remembers what was current, which then stays; else the
    /// call that leaves nothing current, on the display that was current, or
    /// on the guard's own where none was.
    pub open spec fn released(self) -> Option<BindRequest> {
        match self.remembered() {
            Some(_) => None,
            None => Some(
                BindRequest::neutral(
                    if self.former_display() == ffi::NO_DISPLAY {
                        self.target()
                    } else {
                        self.former_display()
                    },
                ),
            ),
        }
    }

    /// Ends the guard and gives the call to make before the handles are
    /// destroyed.
    pub fn release(self) -> (r: Option<BindRequest>)
        ensures
            r == self.released(),
    {
        match self.possibly_invalid {
            Some(_) => None,
            None => {
                let display = if self.old_display == ffi::NO_DISPLAY {
                    self.display
                } else {
                    self.old_display
                };
                Some(BindRequest::unbind(display))
            },
        }
    }
}

/// The call to make before the handles are destroyed, where `current` is what
/// the thread holds: the call that leaves nothing current where one of the
/// handles is current, and none otherwise.
pub open spec fn guard_plan(
    display: usize,
    current: ThreadBinding,
    draw: usize,
    read: usize,
    context: usize,
) -> Option<BindRequest> {
    if MakeCurrentGuard::any_same(current, draw, read, context) {
        Some(
            BindRequest::neutral(
                if current.display == ffi::NO_DISPLAY {
                    display
                } else {
                    current.display
                },
            ),
        )
    } else {
        None
    }
}

/// The call to make before the handles are destroyed.
pub fn guard_destruction(
    display: usize,
    current: ThreadBinding,
    draw: usize,
    read: usize,
    context: usize,
) -> (r: Option<BindRequest>)
    ensures
        r == guard_plan(display, current, draw, read, context),
{
    let mut guard = MakeCurrentGuard::new_keep(display, current);
    guard.if_any_same_then_invalidate(draw, read, context);
    guard.release()
}

/// No destroyed context stays current: once the call that the guard asks for
/// has succeeded, the thread does not hold the context; and where it held
/// it, nothing is current any more.
pub proof fn destroyed_context_is_not_current(
    display: usize,
    current: ThreadBinding,
    context: usize,
)
    requires
        context != ffi::NO_CONTEXT,
    ensures
        ({
            let plan = guard_plan(display, current, ffi::NO_SURFACE, ffi::NO_SURFACE, context);
            &&& !current.after(plan).holds_context(context)
            &&& current.holds_context(context) ==> current.after(plan).is_neutral()
            &&& !current.holds_context(context) ==> current.after(plan) == current
        }),
{
}

/// No destroyed surface stays current: once the call that the guard asks for
/// has succeeded, the thread does not hold the surface; and where it held
/// it, nothing is current any more.
pub proof fn destroyed_surface_is_not_current(
    display: usize,
    current: ThreadBinding,
    surface: usize,
)
    requires
        surface != ffi::NO_SURFACE,
    ensures
        ({
            let plan = guard_plan(display, current, surface, surface, ffi::NO_CONTEXT);
            &&& !current.after(plan).holds_surface(surface)
            &&& current.holds_surface(surface) ==> current.after(plan).is_neutral()
            &&& !current.holds_surface(surface) && current.context != ffi::NO_CONTEXT
                ==> current.after(plan) == current
        }),
{
}

} // verus!
