//! Whether a surface may be bound on some thread, as a type.

use std::marker::PhantomData;
use std::rc::Rc;
use vstd::prelude::*;

verus! {

/// A type that says whether a surface may be in use.
pub trait SurfaceInUseTrait: Copy {
    /// What the type says.
    spec fn in_use() -> bool;
}

/// The surface may be bound on some thread, and has to stay on its own.
#[derive(Clone, Copy, Debug)]
pub struct Possibly {
    phantom: PhantomData<Rc<()>>,
}

/// The surface is not bound on any thread.
#[derive(Clone, Copy, Debug)]
pub enum No {
    NotInUse,
}

impl SurfaceInUseTrait for Possibly {
    open spec fn in_use() -> bool {
        true
    }
}

impl SurfaceInUseTrait for No {
    open spec fn in_use() -> bool {
        false
    }
}

} // verus!
