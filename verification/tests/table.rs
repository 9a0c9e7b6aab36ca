use egl_context::egl::table::{
    Egl, EglCache, EntryPoint, Lookup, SymbolResolver, ENTRY_POINTS,
};

#[test]
fn entry_points_have_their_own_slots() {
    let mut seen = vec![false; ENTRY_POINTS];
    for i in 0..ENTRY_POINTS {
        let entry = EntryPoint::from_index(i).unwrap();
        assert_eq!(entry.index(), i);
        assert!(!seen[i]);
        seen[i] = true;
        assert!(entry.symbol().starts_with("egl"));
    }
    assert_eq!(EntryPoint::from_index(ENTRY_POINTS), None);
    assert_eq!(EntryPoint::GetError.index(), 0);
    assert_eq!(EntryPoint::GetCurrentDisplay.index(), ENTRY_POINTS - 1);
    assert_eq!(EntryPoint::GetCurrentDisplay.symbol(), "eglGetCurrentDisplay");
    assert_eq!(EntryPoint::GetPlatformDisplayEXT.symbol(), "eglGetPlatformDisplayEXT");
    assert_eq!(EntryPoint::BindAPI.symbol(), "eglBindAPI");
}

#[test]
fn table_is_filled_by_the_resolver() {
    let egl = Egl::load_with(|entry: EntryPoint| match entry {
        EntryPoint::SwapBuffersWithDamageKHR | EntryPoint::GetPlatformDisplay => 0,
        other => 0x1000 + other.index(),
    });
    assert!(!egl.is_loaded(EntryPoint::SwapBuffersWithDamageKHR));
    assert_eq!(egl.resolve(EntryPoint::SwapBuffersWithDamageKHR), None);
    assert!(!egl.is_loaded(EntryPoint::GetPlatformDisplay));
    assert!(egl.is_loaded(EntryPoint::MakeCurrent));
    assert_eq!(egl.resolve(EntryPoint::MakeCurrent), Some(0x1000 + 12));
    assert_eq!(egl.resolve(EntryPoint::GetError), Some(0x1000));
}

#[test]
fn no_library_is_an_error() {
    assert!(Egl::new(None::<fn(EntryPoint) -> usize>).is_err());
    let egl = Egl::new(Some(|_entry: EntryPoint| 7usize)).unwrap();
    assert_eq!(egl.resolve(EntryPoint::QueryString), Some(7));
}

#[test]
fn table_from_addresses_wants_every_slot() {
    assert!(Egl::from_addresses(vec![1; ENTRY_POINTS - 1]).is_none());
    assert!(Egl::from_addresses(vec![1; ENTRY_POINTS + 1]).is_none());
    let mut addresses = vec![0usize; ENTRY_POINTS];
    addresses[EntryPoint::Initialize.index()] = 0x42;
    let egl = Egl::from_addresses(addresses).unwrap();
    assert_eq!(egl.resolve(EntryPoint::Initialize), Some(0x42));
    assert_eq!(egl.resolve(EntryPoint::BindAPI), None);
}

#[test]
fn symbols_come_from_the_library_first() {
    let mut resolver = SymbolResolver::new();
    assert_eq!(resolver.lookup(Some(0x10)), Lookup::Found(0x10));
    assert_eq!(resolver.lookup(None), Lookup::LoadResolver);
    resolver.resolver_loaded(0x99);
    assert_eq!(resolver.lookup(None), Lookup::AskResolver(0x99));
    assert_eq!(resolver.lookup(Some(0x11)), Lookup::Found(0x11));
    // The first address stays.
    resolver.resolver_loaded(0x77);
    assert_eq!(resolver.lookup(None), Lookup::AskResolver(0x99));
}

#[test]
fn loading_is_tried_once() {
    let mut cache = EglCache::new();
    assert!(cache.needs_load());
    assert!(cache.get().is_none());
    cache.store(Err(()));
    assert!(!cache.needs_load());
    assert!(matches!(cache.get(), Some(Err(()))));
    // A later success does not replace the failure.
    cache.store(Egl::from_addresses(vec![1; ENTRY_POINTS]).ok_or(()));
    assert!(matches!(cache.get(), Some(Err(()))));

    let mut cache = EglCache::new();
    cache.store(Egl::from_addresses(vec![5; ENTRY_POINTS]).ok_or(()));
    cache.store(Err(()));
    match cache.get() {
        Some(Ok(egl)) => assert_eq!(egl.resolve(EntryPoint::GetError), Some(5)),
        _ => panic!("the table was stored first"),
    }
}

#[test]
fn core_entry_points_have_to_be_there() {
    assert!(EntryPoint::MakeCurrent.is_required());
    assert!(EntryPoint::GetCurrentDisplay.is_required());
    assert!(!EntryPoint::GetPlatformDisplay.is_required());
    assert!(!EntryPoint::GetPlatformDisplayEXT.is_required());
    assert!(!EntryPoint::SwapBuffersWithDamageKHR.is_required());

    let only_core = Egl::load_with(|entry: EntryPoint| if entry.is_required() { 1 } else { 0 });
    assert_eq!(only_core.first_missing(), None);
    let nothing = Egl::load_with(|_entry: EntryPoint| 0);
    assert_eq!(nothing.first_missing(), Some(EntryPoint::GetError));
    let holes = Egl::load_with(|entry: EntryPoint| match entry {
        EntryPoint::GetPlatformDisplay | EntryPoint::CreateContext | EntryPoint::SwapBuffers => 0,
        _ => 1,
    });
    assert_eq!(holes.first_missing(), Some(EntryPoint::CreateContext));
}
