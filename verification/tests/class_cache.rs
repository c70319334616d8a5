use apple_rs_sys::class::{
    generate_unique_class_name, get_class_cached, get_class_registered, resolve_superclass,
    ClassCache, ClassData, ClassKey,
};
use apple_rs_sys::error::BridgeError;

/// A stand-in for the foreign runtime's flat, process-wide class namespace,
/// counting how often the bridge asks it to look a class up.
struct FakeRuntime {
    classes: Vec<(String, usize)>,
    lookups: usize,
    registrations: usize,
}

impl FakeRuntime {
    fn new() -> Self {
        FakeRuntime { classes: Vec::new(), lookups: 0, registrations: 0 }
    }

    fn with_class(name: &str, address: usize) -> Self {
        let mut rt = Self::new();
        rt.classes.push((name.to_string(), address));
        rt
    }

    fn get_class(&mut self, name: &str) -> Option<ClassData> {
        self.lookups += 1;
        self.classes
            .iter()
            .find(|(n, _)| n == name)
            .map(|(_, address)| ClassData { class: *address })
    }

    fn register_class(&mut self, name: &str, _superclass: ClassData) -> Option<ClassData> {
        if self.classes.iter().any(|(n, _)| n == name) {
            return None;
        }
        self.registrations += 1;
        let address = 0x1000 + self.classes.len();
        self.classes.push((name.to_string(), address));
        Some(ClassData { class: address })
    }
}

/// Drives a cache-backed class load the way the unverified glue does: read
/// the cache, consult the runtime only on a miss, and let the cache decide
/// what to return and store.
fn cached_load(
    cache: &mut ClassCache,
    rt: &mut FakeRuntime,
    name: &str,
    superclass: Option<&str>,
) -> Option<ClassData> {
    let key = ClassKey::new(name.to_string(), superclass.map(|s| s.to_string()));
    if let Some(found) = cache.lookup(&key) {
        return Some(found);
    }
    let resolved = rt.get_class(name);
    cache.load(&key, resolved)
}

/// Drives dynamic class registration the way the unverified glue does, with
/// the verified phase functions making every decision.
fn fake_get_class(
    cache: &mut ClassCache,
    rt: &mut FakeRuntime,
    super_class: &str,
    class_name: &str,
    attacher: impl Fn(&mut Vec<String>),
) -> Option<ClassData> {
    if let Some(found) = get_class_cached(cache, super_class, class_name) {
        return Some(found);
    }
    let super_key = ClassKey::new(super_class.to_string(), None);
    let looked_up = if cache.lookup(&super_key).is_some() {
        None
    } else {
        rt.get_class(super_class)
    };
    let resolved = match resolve_superclass(cache, super_class, looked_up) {
        Ok(d) => d,
        Err(_) => return None,
    };
    let unique_name = generate_unique_class_name(super_class, class_name);
    let registered = rt.register_class(&unique_name, resolved)?;
    let mut methods: Vec<String> = Vec::new();
    attacher(&mut methods);
    get_class_registered(cache, super_class, class_name, registered)
}

#[test]
fn save_then_lookup() {
    let mut cache = ClassCache::new();
    let key = ClassKey::new("NSObject".to_string(), None);
    assert_eq!(cache.lookup(&key), None);
    assert_eq!(cache.save(key.clone(), ClassData { class: 42 }), Some(()));
    assert_eq!(cache.lookup(&key), Some(ClassData { class: 42 }));
}

#[test]
fn save_overwrites_last_writer_wins() {
    let mut cache = ClassCache::new();
    let key = ClassKey::new("NSObject".to_string(), None);
    cache.save(key.clone(), ClassData { class: 1 });
    cache.save(key.clone(), ClassData { class: 2 });
    assert_eq!(cache.lookup(&key), Some(ClassData { class: 2 }));
}

#[test]
fn keys_differ_on_superclass_field() {
    let mut cache = ClassCache::new();
    let bare = ClassKey::new("Delegate".to_string(), None);
    let scoped = ClassKey::new("Delegate".to_string(), Some("NSObject".to_string()));
    cache.save(bare.clone(), ClassData { class: 7 });
    assert_eq!(cache.lookup(&scoped), None);
    assert_eq!(cache.lookup(&bare), Some(ClassData { class: 7 }));
}

#[test]
fn idempotent_read_after_one_resolution() {
    let mut cache = ClassCache::new();
    let mut rt = FakeRuntime::with_class("NSString", 0xbeef);

    let first = cached_load(&mut cache, &mut rt, "NSString", None);
    assert_eq!(first, Some(ClassData { class: 0xbeef }));
    assert_eq!(rt.lookups, 1);

    for _ in 0..5 {
        let again = cached_load(&mut cache, &mut rt, "NSString", None);
        assert_eq!(again, first);
    }
    assert_eq!(rt.lookups, 1, "a cached class must not be looked up again");
}

#[test]
fn misses_are_never_cached() {
    let mut cache = ClassCache::new();
    let mut rt = FakeRuntime::new();

    for attempt in 1..=3 {
        assert_eq!(cached_load(&mut cache, &mut rt, "Missing", None), None);
        assert_eq!(rt.lookups, attempt, "every miss must retry the foreign lookup");
    }

    let key = ClassKey::new("Missing".to_string(), None);
    cache.save(key, ClassData { class: 9 });
    assert_eq!(
        cached_load(&mut cache, &mut rt, "Missing", None),
        Some(ClassData { class: 9 }),
        "a later save must be observed by the next load"
    );
    assert_eq!(rt.lookups, 3, "the saved class must come from the cache");
}

#[test]
fn later_resolution_answers_cannot_displace_a_cached_class() {
    let mut cache = ClassCache::new();
    let key = ClassKey::new("NSDate".to_string(), None);
    let first = cache.load(&key, Some(ClassData { class: 0xa }));
    assert_eq!(first, Some(ClassData { class: 0xa }));
    // A repeated load must return the cached entry even if a fresh foreign
    // lookup would have answered differently.
    let second = cache.load(&key, Some(ClassData { class: 0xb }));
    assert_eq!(second, Some(ClassData { class: 0xa }));
    assert_eq!(cache.lookup(&key), Some(ClassData { class: 0xa }));
}

#[test]
fn superclass_not_found_is_reported() {
    let mut cache = ClassCache::new();
    let outcome = resolve_superclass(&mut cache, "NoSuchBase", None);
    assert_eq!(outcome, Err(BridgeError::SuperclassNotFound));
    let mut rt = FakeRuntime::new();
    assert_eq!(fake_get_class(&mut cache, &mut rt, "NoSuchBase", "Delegate", |_| {}), None);
}

#[test]
fn logical_key_stability() {
    let mut cache = ClassCache::new();
    let mut rt = FakeRuntime::with_class("NSObject", 0xcafe);

    let first = fake_get_class(&mut cache, &mut rt, "NSObject", "Delegate", |_| {});
    assert!(first.is_some());
    assert_eq!(rt.registrations, 1);

    let second = fake_get_class(&mut cache, &mut rt, "NSObject", "Delegate", |_| {});
    assert_eq!(second, first, "the same logical pair must return the cached class");
    assert_eq!(rt.registrations, 1, "the same logical pair must not register twice");
}

#[test]
fn end_to_end_dynamic_registration() {
    let mut cache = ClassCache::new();
    let mut rt = FakeRuntime::with_class("Base", 0x2000);

    let noop = |_: &mut Vec<String>| {};
    let first = fake_get_class(&mut cache, &mut rt, "Base", "Delegate", noop);
    let second = fake_get_class(&mut cache, &mut rt, "Base", "Delegate", noop);
    assert!(first.is_some());
    assert_eq!(first, second);

    let generated: Vec<&String> = rt
        .classes
        .iter()
        .map(|(n, _)| n)
        .filter(|n| n.starts_with("Base_Delegate_"))
        .collect();
    assert_eq!(generated.len(), 1, "exactly one unique runtime class for the logical pair");
}
