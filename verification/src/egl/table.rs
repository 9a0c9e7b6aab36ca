//! The table of native entry points.
//!
//! An entry point that could not be resolved stays in the table with the
//! address `0`.  Extension entry points may be missing even where the
//! extension is advertised, so callers ask [`Egl::is_loaded`] before they use
//! one.

use vstd::prelude::*;

verus! {

/// A native function that this crate asks for.
#[derive(Clone, Copy, Debug, PartialEq, Eq, Structural)]
pub enum EntryPoint {
    GetError,
    GetProcAddress,
    QueryString,
    GetDisplay,
    GetPlatformDisplay,
    GetPlatformDisplayEXT,
    Initialize,
    BindAPI,
    ChooseConfig,
    GetConfigAttrib,
    CreateContext,
    DestroyContext,
    MakeCurrent,
    GetCurrentContext,
    GetCurrentSurface,
    SwapInterval,
    CreateWindowSurface,
    CreatePbufferSurface,
    DestroySurface,
    SwapBuffers,
    SwapBuffersWithDamageKHR,
    GetCurrentDisplay,
}

/// The number of entry points.
pub const ENTRY_POINTS: usize = 22;

impl EntryPoint {
    /// The place of the entry point in the table.
    pub open spec fn slot(self) -> int {
        match self {
            EntryPoint::GetError => 0,
            EntryPoint::GetProcAddress => 1,
            EntryPoint::QueryString => 2,
            EntryPoint::GetDisplay => 3,
            EntryPoint::GetPlatformDisplay => 4,
            EntryPoint::GetPlatformDisplayEXT => 5,
            EntryPoint::Initialize => 6,
            EntryPoint::BindAPI => 7,
            EntryPoint::ChooseConfig => 8,
            EntryPoint::GetConfigAttrib => 9,
            EntryPoint::CreateContext => 10,
            EntryPoint::DestroyContext => 11,
            EntryPoint::MakeCurrent => 12,
            EntryPoint::GetCurrentContext => 13,
            EntryPoint::GetCurrentSurface => 14,
            EntryPoint::SwapInterval => 15,
            EntryPoint::CreateWindowSurface => 16,
            EntryPoint::CreatePbufferSurface => 17,
            EntryPoint::DestroySurface => 18,
            EntryPoint::SwapBuffers => 19,
            EntryPoint::SwapBuffersWithDamageKHR => 20,
            EntryPoint::GetCurrentDisplay => 21,
        }
    }

    /// The entry point at a place of the table.
    pub open spec fn at(slot: int) -> EntryPoint {
        if slot == 0 {
            EntryPoint::GetError
        } else if slot == 1 {
            EntryPoint::GetProcAddress
        } else if slot == 2 {
            EntryPoint::QueryString
        } else if slot == 3 {
            EntryPoint::GetDisplay
        } else if slot == 4 {
            EntryPoint::GetPlatformDisplay
        } else if slot == 5 {
            EntryPoint::GetPlatformDisplayEXT
        } else if slot == 6 {
            EntryPoint::Initialize
        } else if slot == 7 {
            EntryPoint::BindAPI
        } else if slot == 8 {
            EntryPoint::ChooseConfig
        } else if slot == 9 {
            EntryPoint::GetConfigAttrib
        } else if slot == 10 {
            EntryPoint::CreateContext
        } else if slot == 11 {
            EntryPoint::DestroyContext
        } else if slot == 12 {
            EntryPoint::MakeCurrent
        } else if slot == 13 {
            EntryPoint::GetCurrentContext
        } else if slot == 14 {
            EntryPoint::GetCurrentSurface
        } else if slot == 15 {
            EntryPoint::SwapInterval
        } else if slot == 16 {
            EntryPoint::CreateWindowSurface
        } else if slot == 17 {
            EntryPoint::CreatePbufferSurface
        } else if slot == 18 {
            EntryPoint::DestroySurface
        } else if slot == 19 {
            EntryPoint::SwapBuffers
        } else if slot == 20 {
            EntryPoint::SwapBuffersWithDamageKHR
        } else {
            EntryPoint::GetCurrentDisplay
        }
    }

    /// The place of the entry point in the table.
    pub fn index(&self) -> (i: usize)
        ensures
            i == self.slot(),
            i < ENTRY_POINTS,
            EntryPoint::at(i as int) == *self,
    {
        match *self {
            EntryPoint::GetError => 0,
            EntryPoint::GetProcAddress => 1,
            EntryPoint::QueryString => 2,
            EntryPoint::GetDisplay => 3,
            EntryPoint::GetPlatformDisplay => 4,
            EntryPoint::GetPlatformDisplayEXT => 5,
            EntryPoint::Initialize => 6,
            EntryPoint::BindAPI => 7,
            EntryPoint::ChooseConfig => 8,
            EntryPoint::GetConfigAttrib => 9,
            EntryPoint::CreateContext => 10,
            EntryPoint::DestroyContext => 11,
            EntryPoint::MakeCurrent => 12,
            EntryPoint::GetCurrentContext => 13,
            EntryPoint::GetCurrentSurface => 14,
            EntryPoint::SwapInterval => 15,
            EntryPoint::CreateWindowSurface => 16,
            EntryPoint::CreatePbufferSurface => 17,
            EntryPoint::DestroySurface => 18,
            EntryPoint::SwapBuffers => 19,
            EntryPoint::SwapBuffersWithDamageKHR => 20,
            EntryPoint::GetCurrentDisplay => 21,
        }
    }

    /// The entry point at a place of the table.
    fn at_index(i: usize) -> (e: EntryPoint)
        requires
            i < ENTRY_POINTS,
        ensures
            e == EntryPoint::at(i as int),
            e.slot() == i,
    {
        if i == 0 {
            EntryPoint::GetError
        } else if i == 1 {
            EntryPoint::GetProcAddress
        } else if i == 2 {
            EntryPoint::QueryString
        } else if i == 3 {
            EntryPoint::GetDisplay
        } else if i == 4 {
            EntryPoint::GetPlatformDisplay
        } else if i == 5 {
            EntryPoint::GetPlatformDisplayEXT
        } else if i == 6 {
            EntryPoint::Initialize
        } else if i == 7 {
            EntryPoint::BindAPI
        } else if i == 8 {
            EntryPoint::ChooseConfig
        } else if i == 9 {
            EntryPoint::GetConfigAttrib
        } else if i == 10 {
            EntryPoint::CreateContext
        } else if i == 11 {
            EntryPoint::DestroyContext
        } else if i == 12 {
            EntryPoint::MakeCurrent
        } else if i == 13 {
            EntryPoint::GetCurrentContext
        } else if i == 14 {
            EntryPoint::GetCurrentSurface
        } else if i == 15 {
            EntryPoint::SwapInterval
        } else if i == 16 {
            EntryPoint::CreateWindowSurface
        } else if i == 17 {
            EntryPoint::CreatePbufferSurface
        } else if i == 18 {
            EntryPoint::DestroySurface
        } else if i == 19 {
            EntryPoint::SwapBuffers
        } else if i == 20 {
            EntryPoint::SwapBuffersWithDamageKHR
        } else {
            EntryPoint::GetCurrentDisplay
        }
    }

    /// The entry point at a place of the table, or nothing where the table
    /// has no such place.
    pub fn from_index(i: usize) -> (r: Option<EntryPoint>)
        ensures
            r is Some <==> i < ENTRY_POINTS,
            r matches Some(e) ==> e == EntryPoint::at(i as int) && e.slot() == i,
    {
        if i < ENTRY_POINTS {
            Some(EntryPoint::at_index(i))
        } else {
            None
        }
    }

    /// Whether the entry point belongs to the core of EGL, which every
    /// library has; the others belong to extensions and may be missing.
    pub open spec fn required(self) -> bool {
        self != EntryPoint::GetPlatformDisplay && self != EntryPoint::GetPlatformDisplayEXT
            && self != EntryPoint::SwapBuffersWithDamageKHR
    }

    /// Whether the entry point belongs to the core of EGL.
    pub fn is_required(&self) -> (b: bool)
        ensures
            b == self.required(),
    {
        match *self {
            EntryPoint::GetPlatformDisplay
            | EntryPoint::GetPlatformDisplayEXT
            | EntryPoint::SwapBuffersWithDamageKHR => false,
            _ => true,
        }
    }

    /// The name of the symbol in the native library.
    pub open spec fn name(self) -> &'static str {
        match self {
            EntryPoint::GetError => "eglGetError",
            EntryPoint::GetProcAddress => "eglGetProcAddress",
            EntryPoint::QueryString => "eglQueryString",
            EntryPoint::GetDisplay => "eglGetDisplay",
            EntryPoint::GetPlatformDisplay => "eglGetPlatformDisplay",
            EntryPoint::GetPlatformDisplayEXT => "eglGetPlatformDisplayEXT",
            EntryPoint::Initialize => "eglInitialize",
            EntryPoint::BindAPI => "eglBindAPI",
            EntryPoint::ChooseConfig => "eglChooseConfig",
            EntryPoint::GetConfigAttrib => "eglGetConfigAttrib",
            EntryPoint::CreateContext => "eglCreateContext",
            EntryPoint::DestroyContext => "eglDestroyContext",
            EntryPoint::MakeCurrent => "eglMakeCurrent",
            EntryPoint::GetCurrentContext => "eglGetCurrentContext",
            EntryPoint::GetCurrentSurface => "eglGetCurrentSurface",
            EntryPoint::SwapInterval => "eglSwapInterval",
            EntryPoint::CreateWindowSurface => "eglCreateWindowSurface",
            EntryPoint::CreatePbufferSurface => "eglCreatePbufferSurface",
            EntryPoint::DestroySurface => "eglDestroySurface",
            EntryPoint::SwapBuffers => "eglSwapBuffers",
            EntryPoint::SwapBuffersWithDamageKHR => "eglSwapBuffersWithDamageKHR",
            EntryPoint::GetCurrentDisplay => "eglGetCurrentDisplay",
        }
    }

    /// The name of the symbol in the native library.
    pub fn symbol(&self) -> (s: &'static str)
        ensures
            s@ == self.name()@,
    {
        match *self {
            EntryPoint::GetError => "eglGetError",
            EntryPoint::GetProcAddress => "eglGetProcAddress",
            EntryPoint::QueryString => "eglQueryString",
            EntryPoint::GetDisplay => "eglGetDisplay",
            EntryPoint::GetPlatformDisplay => "eglGetPlatformDisplay",
            EntryPoint::GetPlatformDisplayEXT => "eglGetPlatformDisplayEXT",
            EntryPoint::Initialize => "eglInitialize",
            EntryPoint::BindAPI => "eglBindAPI",
            EntryPoint::ChooseConfig => "eglChooseConfig",
            EntryPoint::GetConfigAttrib => "eglGetConfigAttrib",
            EntryPoint::CreateContext => "eglCreateContext",
            EntryPoint::DestroyContext => "eglDestroyContext",
            EntryPoint::MakeCurrent => "eglMakeCurrent",
            EntryPoint::GetCurrentContext => "eglGetCurrentContext",
            EntryPoint::GetCurrentSurface => "eglGetCurrentSurface",
            EntryPoint::SwapInterval => "eglSwapInterval",
            EntryPoint::CreateWindowSurface => "eglCreateWindowSurface",
            EntryPoint::CreatePbufferSurface => "eglCreatePbufferSurface",
            EntryPoint::DestroySurface => "eglDestroySurface",
            EntryPoint::SwapBuffers => "eglSwapBuffers",
            EntryPoint::SwapBuffersWithDamageKHR => "eglSwapBuffersWithDamageKHR",
            EntryPoint::GetCurrentDisplay => "eglGetCurrentDisplay",
        }
    }
}

/// What to do next to resolve one symbol.
#[derive(Clone, Copy, Debug, PartialEq, Eq, Structural)]
pub enum Lookup {
    /// The symbol is resolved to this address.
    Found(usize),
    /// The library's own `eglGetProcAddress` has to be looked up first.
    LoadResolver,
    /// The `eglGetProcAddress` at this address has to be asked for the
    /// symbol.
    AskResolver(usize),
}

/// Resolves symbols: from the library directly where it exports them, through
/// the library's `eglGetProcAddress` where it does not.  The address of
/// `eglGetProcAddress` is looked up once and kept.
#[derive(Clone, Copy, Debug, PartialEq, Eq)]
pub struct SymbolResolver {
    get_proc_address: Option<usize>,
}

impl SymbolResolver {
    /// The address of `eglGetProcAddress`, once it has been looked up.
    pub closed spec fn resolver(&self) -> Option<usize> {
        self.get_proc_address
    }

    /// A resolver that has not looked up `eglGetProcAddress` yet.
    pub fn new() -> (r: SymbolResolver)
        ensures
            r.resolver() is None,
    {
        SymbolResolver { get_proc_address: None }
    }

    /// The step that resolves a symbol, given what the direct lookup in the
    /// library answered.
    pub open spec fn step(self, direct: Option<usize>) -> Lookup {
        match direct {
            Some(address) => Lookup::Found(address),
            None => match self.resolver() {
                Some(resolver) => Lookup::AskResolver(resolver),
                None => Lookup::LoadResolver,
            },
        }
    }

    /// The step that resolves a symbol, given what the direct lookup in the
    /// library answered: a symbol that the library exports is taken as it
    /// is; any other is asked of `eglGetProcAddress`, which is looked up
    /// first where that has not been done.
    pub fn lookup(&self, direct: Option<usize>) -> (l: Lookup)
        ensures
            l == self.step(direct),
    {
        match direct {
            Some(address) => Lookup::Found(address),
            None => match self.get_proc_address {
                Some(resolver) => Lookup::AskResolver(resolver),
                None => Lookup::LoadResolver,
            },
        }
    }

    /// Keeps the address of `eglGetProcAddress`.  An address that was kept
    /// before stays.
    pub fn resolver_loaded(&mut self, address: usize)
        ensures
            final(self).resolver() == match old(self).resolver() {
                Some(kept) => Some(kept),
                None => Some(address),
            },
    {
        if self.get_proc_address.is_none() {
            self.get_proc_address = Some(address);
        }
    }
}

/// Once `eglGetProcAddress` has been looked up, no later step asks to look
/// it up again, whatever is loaded in between.
pub proof fn resolver_is_loaded_once(r: SymbolResolver, first: usize, direct: Option<usize>)
    requires
        r.resolver() == Some(first),
    ensures
        r.step(direct) != Lookup::LoadResolver,
        r.step(None) == Lookup::AskResolver(first),
{
}

/// The table of native entry points.
#[derive(Debug)]
pub struct Egl {
    addresses: Vec<usize>,
}

impl Egl {
    /// The address of an entry point, `0` where it is not loaded.
    pub closed spec fn address(&self, entry: EntryPoint) -> usize {
        self.addresses@[entry.slot()]
    }

    #[verifier::type_invariant]
    spec fn complete(&self) -> bool {
        self.addresses@.len() == ENTRY_POINTS
    }

    /// Whether an entry point is loaded.
    pub open spec fn loaded(&self, entry: EntryPoint) -> bool {
        self.address(entry) != 0
    }

    /// Resolves every entry point with `loadfn`.
    pub fn load_with<F: Fn(EntryPoint) -> usize>(loadfn: F) -> (egl: Egl)
        requires
            forall|entry: EntryPoint| loadfn.requires((entry,)),
        ensures
            forall|entry: EntryPoint| loadfn.ensures((entry,), #[trigger] egl.address(entry)),
    {
        let mut addresses: Vec<usize> = Vec::new();
        let mut i: usize = 0;
        while i < ENTRY_POINTS
            invariant
                i <= ENTRY_POINTS,
                addresses@.len() == i,
                forall|entry: EntryPoint| loadfn.requires((entry,)),
                forall|k: int|
                    0 <= k < i ==> loadfn.ensures((EntryPoint::at(k),), #[trigger] addresses@[k]),
            decreases ENTRY_POINTS - i,
        {
            let address = loadfn(EntryPoint::at_index(i));
            addresses.push(address);
            i += 1;
        }
        let egl = Egl { addresses };
        egl
    }

    /// The table of the library that was opened: `library` holds what
    /// resolves its symbols, or nothing where no library could be opened,
    /// which is an error.
    pub fn new<F: Fn(EntryPoint) -> usize>(library: Option<F>) -> (r: Result<Egl, ()>)
        requires
            library matches Some(loadfn) ==> forall|entry: EntryPoint| loadfn.requires((entry,)),
        ensures
            r is Ok <==> library is Some,
            r matches Ok(egl) ==> forall|entry: EntryPoint|
                library->Some_0.ensures((entry,), #[trigger] egl.address(entry)),
    {
        match library {
            Some(loadfn) => Ok(Egl::load_with(loadfn)),
            None => Err(()),
        }
    }

    /// The table that holds these addresses, in the order of
    /// [`EntryPoint::index`].  A list of another length is refused.
    pub fn from_addresses(addresses: Vec<usize>) -> (r: Option<Egl>)
        ensures
            r is Some <==> addresses@.len() == ENTRY_POINTS,
            r matches Some(egl) ==> forall|entry: EntryPoint|
                #[trigger] egl.address(entry) == addresses@[entry.slot()],
    {
        if addresses.len() == ENTRY_POINTS {
            Some(Egl { addresses })
        } else {
            None
        }
    }

    /// Whether every entry point of the core of EGL is loaded.  A table that
    /// lacks one cannot be worked with.
    pub open spec fn usable(&self) -> bool {
        forall|entry: EntryPoint| entry.required() ==> self.loaded(entry)
    }

    /// The first entry point of the core of EGL that is not loaded, in the
    /// order of the table; nothing where all of them are.
    pub fn first_missing(&self) -> (r: Option<EntryPoint>)
        ensures
            r is None <==> self.usable(),
            r matches Some(entry) ==> entry.required() && !self.loaded(entry) && forall|
                before: EntryPoint,
            |
                before.required() && before.slot() < entry.slot() ==> self.loaded(before),
    {
        proof {
            use_type_invariant(self);
        }
        let mut i: usize = 0;
        while i < ENTRY_POINTS
            invariant
                i <= ENTRY_POINTS,
                self.addresses@.len() == ENTRY_POINTS,
                forall|before: EntryPoint|
                    before.required() && before.slot() < i ==> self.loaded(before),
            decreases ENTRY_POINTS - i,
        {
            let entry = EntryPoint::at_index(i);
            if entry.is_required() && self.addresses[i] == 0 {
                return Some(entry);
            }
            i += 1;
        }
        None
    }

    /// The address of an entry point, or nothing where it is not loaded.
    pub fn resolve(&self, entry: EntryPoint) -> (a: Option<usize>)
        ensures
            a == if self.loaded(entry) {
                Some(self.address(entry))
            } else {
                None
            },
    {
        proof {
            use_type_invariant(self);
        }
        let address = self.addresses[entry.index()];
        if address != 0 {
            Some(address)
        } else {
            None
        }
    }

    /// Whether an entry point is loaded.
    pub fn is_loaded(&self, entry: EntryPoint) -> (b: bool)
        ensures
            b == self.loaded(entry),
    {
        proof {
            use_type_invariant(self);
        }
        self.addresses[entry.index()] != 0
    }
}

/// The table of the process, loaded once.
///
/// The first outcome of loading is kept, a failure as well as a success:
/// once loading has failed, it is not tried again, and everybody who asks
/// sees the same failure.
#[derive(Debug)]
pub struct EglCache {
    outcome: Option<Result<Egl, ()>>,
}

impl EglCache {
    /// What loading led to, if it was tried.
    pub closed spec fn kept(&self) -> Option<Result<Egl, ()>> {
        self.outcome
    }

    /// A cache for which loading was not tried yet.
    pub fn new() -> (c: EglCache)
        ensures
            c.kept() is None,
    {
        EglCache { outcome: None }
    }

    /// Whether loading is still to be tried.
    pub fn needs_load(&self) -> (b: bool)
        ensures
            b == self.kept() is None,
    {
        self.outcome.is_none()
    }

    /// What is kept after `outcome` was stored: what was kept before, or
    /// `outcome` where nothing was.
    pub open spec fn stored(kept: Option<Result<Egl, ()>>, outcome: Result<Egl, ()>) -> Option<
        Result<Egl, ()>,
    > {
        match kept {
            Some(first) => Some(first),
            None => Some(outcome),
        }
    }

    /// Keeps what loading led to, unless an outcome is kept already.
    pub fn store(&mut self, outcome: Result<Egl, ()>)
        ensures
            final(self).kept() == EglCache::stored(old(self).kept(), outcome),
    {
        if self.outcome.is_none() {
            self.outcome = Some(outcome);
        }
    }

    /// The table, an error where loading failed, or nothing where loading
    /// was not tried yet.
    pub fn get(&self) -> (r: Option<Result<&Egl, ()>>)
        ensures
            match self.kept() {
                None => r is None,
                Some(Ok(egl)) => r == Some(Ok::<&Egl, ()>(&egl)),
                Some(Err(_)) => r == Some(Err::<&Egl, ()>(())),
            },
    {
        match &self.outcome {
            None => None,
            Some(Ok(egl)) => Some(Ok(egl)),
            Some(Err(_)) => Some(Err(())),
        }
    }
}

/// The first outcome of loading stays: whatever is stored after it changes
/// nothing, be the first outcome a table or a failure.
pub proof fn first_outcome_is_kept(first: Result<Egl, ()>, later: Result<Egl, ()>)
    ensures
        EglCache::stored(EglCache::stored(None, first), later) == Some(first),
{
}

} // verus!
