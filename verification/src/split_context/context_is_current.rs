//! Whether a context may be current, as a type.
//!
//! A context whose type says that it may be current has to stay on its
//! thread: the types that say so hold a marker that cannot be sent to another
//! thread, and so cannot be sent themselves.

use std::marker::PhantomData;
use std::rc::Rc;
use vstd::prelude::*;

verus! {

/// What is known of a context: whether it may be current on some thread, and
/// whether a surface may be bound with it.
#[derive(Clone, Copy, Debug, PartialEq, Eq, Structural)]
pub enum Currency {
    NotCurrent,
    PossiblyCurrent,
    PossiblyCurrentAndSurfaceBound,
}

impl Currency {
    /// Whether a context in this state may be current; only one that may
    /// not can be handed to another thread.
    pub open spec fn may_be_current(self) -> bool {
        self != Currency::NotCurrent
    }
}

/// A type that stands for a state of [`Currency`].
pub trait ContextIsCurrentTrait: Copy {
    /// The state that the type stands for.
    spec fn currency() -> Currency;

    /// The state that the type stands for.
    fn state() -> (c: Currency)
        ensures
            c == Self::currency(),
    ;
}

/// A type that stands for a state in which the context may be current.
pub trait ContextIsCurrentYesTrait: ContextIsCurrentTrait {
    /// The state is one in which the context may be current.
    proof fn may_be_current()
        ensures
            Self::currency().may_be_current(),
    ;
}

/// The context may be current, without a surface as far as is known.
#[derive(Clone, Copy, Debug)]
pub struct Possibly {
    phantom: PhantomData<Rc<()>>,
}

/// The context may be current, and a surface may be bound with it.
#[derive(Clone, Copy, Debug)]
pub struct PossiblyAndSurfaceBound {
    phantom: PhantomData<Rc<()>>,
}

/// The context is not current on any thread.
#[derive(Clone, Copy, Debug)]
pub enum No {
    NotCurrent,
}

impl ContextIsCurrentTrait for Possibly {
    open spec fn currency() -> Currency {
        Currency::PossiblyCurrent
    }

    fn state() -> (c: Currency) {
        Currency::PossiblyCurrent
    }
}

impl ContextIsCurrentTrait for PossiblyAndSurfaceBound {
    open spec fn currency() -> Currency {
        Currency::PossiblyCurrentAndSurfaceBound
    }

    fn state() -> (c: Currency) {
        Currency::PossiblyCurrentAndSurfaceBound
    }
}

impl ContextIsCurrentTrait for No {
    open spec fn currency() -> Currency {
        Currency::NotCurrent
    }

    fn state() -> (c: Currency) {
        Currency::NotCurrent
    }
}

impl ContextIsCurrentYesTrait for Possibly {
    proof fn may_be_current() {
    }
}

impl ContextIsCurrentYesTrait for PossiblyAndSurfaceBound {
    proof fn may_be_current() {
    }
}

} // verus!
