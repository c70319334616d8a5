use crate::error::BridgeError;
use vstd::prelude::*;
use vstd::string::*;

verus! {

/// The view of a class key: the class name and the optional superclass name.
/// Superclass-only lookups use an absent second component.
pub type ClassKeyView = (Seq<char>, Option<Seq<char>>);

/// A key for a class: two keys are equal exactly when both the name and the
/// optional superclass name match.
#[derive(Debug, PartialEq, Eq, Hash)]
pub struct ClassKey {
    /// The name of the class
    pub name: String,
    /// The name of the superclass
    pub superclass: Option<String>,
}

impl View for ClassKey {
    type V = ClassKeyView;

    open spec fn view(&self) -> ClassKeyView {
        (
            self.name@,
            match self.superclass {
                Option::Some(s) => Option::Some(s@),
                Option::None => Option::None,
            },
        )
    }
}

impl Clone for ClassKey {
    fn clone(&self) -> (r: Self)
        ensures
            r@ == self@,
    {
        ClassKey {
            name: self.name.clone(),
            superclass: match &self.superclass {
                Option::Some(s) => Option::Some(s.clone()),
                Option::None => Option::None,
            },
        }
    }
}

impl ClassKey {
    /// Create a new class key
    pub fn new(name: String, superclass: Option<String>) -> (r: Self)
        ensures
            r.name == name,
            r.superclass == superclass,
    {
        Self { name, superclass }
    }

    /// Field-by-field equality of two keys, as the cache compares them.
    pub fn key_eq(&self, other: &ClassKey) -> (r: bool)
        ensures
            r == (self@ == other@),
    {
        let names_eq = self.name == other.name;
        let supers_eq = match (&self.superclass, &other.superclass) {
            (Option::Some(a), Option::Some(b)) => *a == *b,
            (Option::None, Option::None) => true,
            _ => false,
        };
        names_eq && supers_eq
    }
}

/// The resolved data for a class: the class reference as an opaque address,
/// stored by value and never owned (registered classes live for the whole
/// process).
#[derive(Debug, Clone, Copy, PartialEq, Eq, Structural, Hash)]
pub struct ClassData {
    /// The class pointer
    pub class: usize,
}

impl ClassData {
    /// Get the class pointer
    pub fn ptr(&self) -> (r: usize)
        ensures
            r == self.class,
    {
        self.class
    }
}

/// The table a sequence of cache entries denotes: a later entry for a key
/// shadows an earlier one, so the last writer wins.
pub closed spec fn entries_map(s: Seq<(ClassKey, ClassData)>) -> Map<ClassKeyView, ClassData>
    decreases s.len(),
{
    if s.len() == 0 {
        Map::empty()
    } else {
        entries_map(s.drop_last()).insert(s.last().0@, s.last().1)
    }
}

/// What a cache read returns: the entry for the key, if one is present.
pub open spec fn spec_lookup(m: Map<ClassKeyView, ClassData>, k: ClassKeyView) -> Option<
    ClassData,
> {
    if m.contains_key(k) {
        Some(m[k])
    } else {
        None
    }
}

/// What a full `load` does, given the foreign runtime's answer `resolved` to
/// a class-name lookup: a cached entry is returned unchanged and the answer
/// is ignored; on a miss, a found class is cached and returned, and an absent
/// one is reported without caching anything — a miss is never cached.
/// The result is the pair of the returned value and the table afterwards.
pub open spec fn spec_load(
    m: Map<ClassKeyView, ClassData>,
    k: ClassKeyView,
    resolved: Option<ClassData>,
) -> (Option<ClassData>, Map<ClassKeyView, ClassData>) {
    if m.contains_key(k) {
        (Some(m[k]), m)
    } else {
        match resolved {
            Option::Some(d) => (Some(d), m.insert(k, d)),
            Option::None => (None, m),
        }
    }
}

/// A cache of classes.
///
/// Its view is the table from class keys to class data. The in-memory form
/// appends on `save` and reads the most recent entry for a key, so the view
/// always reflects the last write for each key. The process-wide instance and
/// its reader-writer lock live in the unverified glue; this type holds the
/// table semantics that the lock guards.
#[derive(Debug)]
pub struct ClassCache {
    entries: Vec<(ClassKey, ClassData)>,
}

impl View for ClassCache {
    type V = Map<ClassKeyView, ClassData>;

    closed spec fn view(&self) -> Map<ClassKeyView, ClassData> {
        entries_map(self.entries@)
    }
}

impl ClassCache {
    /// Create a new class cache
    pub fn new() -> (r: Self)
        ensures
            r@ == Map::<ClassKeyView, ClassData>::empty(),
    {
        let r = ClassCache { entries: Vec::new() };
        proof {
            assert(r.entries@.len() == 0);
        }
        r
    }

    /// Read the cached entry for a key; the cache is not consulted further
    /// and not changed.
    pub fn lookup(&self, key: &ClassKey) -> (r: Option<ClassData>)
        ensures
            r == spec_lookup(self@, key@),
    {
        let ghost s = self.entries@;
        let n: usize = self.entries.len();
        proof {
            assert(s.subrange(0, n as int) =~= s);
        }
        let mut i: usize = n;
        while i > 0
            invariant
                i <= n,
                n == s.len(),
                s == self.entries@,
                spec_lookup(entries_map(s), key@) == spec_lookup(
                    entries_map(s.subrange(0, i as int)),
                    key@,
                ),
            decreases i,
        {
            i = i - 1;
            let matched = self.entries[i].0.key_eq(key);
            proof {
                let pre = s.subrange(0, i as int + 1);
                assert(pre.drop_last() =~= s.subrange(0, i as int));
                assert(pre.last() == s[i as int]);
                assert(entries_map(pre) == entries_map(s.subrange(0, i as int)).insert(
                    s[i as int].0@,
                    s[i as int].1,
                ));
            }
            if matched {
                return Some(self.entries[i].1);
            }
        }
        proof {
            assert(s.subrange(0, 0) =~= Seq::<(ClassKey, ClassData)>::empty());
            assert(entries_map(s.subrange(0, 0)) == Map::<ClassKeyView, ClassData>::empty());
        }
        None
    }

    /// Unconditionally insert or overwrite the entry for a key. Infallible
    /// here; the glue that guards the process-wide instance reports `None`
    /// instead when its lock is poisoned.
    pub fn save(&mut self, class_key: ClassKey, class_data: ClassData) -> (r: Option<()>)
        ensures
            final(self)@ == old(self)@.insert(class_key@, class_data),
            r == Some::<()>(()),
    {
        self.entries.push((class_key, class_data));
        proof {
            let s = old(self).entries@;
            let s2 = self.entries@;
            assert(s2.drop_last() =~= s);
            assert(s2.last() == (class_key, class_data));
            assert(entries_map(s2) == entries_map(s).insert(class_key@, class_data));
        }
        Some(())
    }

    /// Get a class: return the cached entry for the key if present;
    /// otherwise decide from `resolved`, the foreign runtime's answer to a
    /// class-name lookup, which the caller performs only on a miss. A found
    /// class is cached under the key and returned; an unknown class is
    /// reported as absent and nothing is cached, so a later registration
    /// remains discoverable.
    pub fn load(&mut self, class_key: &ClassKey, resolved: Option<ClassData>) -> (r: Option<
        ClassData,
    >)
        ensures
            r == spec_load(old(self)@, class_key@, resolved).0,
            final(self)@ == spec_load(old(self)@, class_key@, resolved).1,
    {
        match self.lookup(class_key) {
            Some(d) => Some(d),
            None => match resolved {
                Some(d) => {
                    let owned_key = class_key.clone();
                    let _ = self.save(owned_key, d);
                    Some(d)
                },
                None => None,
            },
        }
    }
}

/// The logical key a dynamically registered class is cached under: the
/// caller-meaningful pair of logical class name and superclass name, not the
/// unique name actually registered with the runtime.
pub open spec fn spec_logical_key(super_name: Seq<char>, class_name: Seq<char>) -> ClassKeyView {
    (class_name, Option::Some(super_name))
}

/// The key a superclass-only resolution uses: the superclass field is absent.
pub open spec fn spec_superclass_key(super_name: Seq<char>) -> ClassKeyView {
    (super_name, Option::None)
}

/// The first step of getting a dynamic class: look the logical pair up in
/// the cache, so a class registered earlier for the same pair is returned
/// without registering a duplicate.
pub fn get_class_cached(cache: &ClassCache, super_class: &str, class_name: &str) -> (r: Option<
    ClassData,
>)
    ensures
        r == spec_lookup(cache@, spec_logical_key(super_class@, class_name@)),
{
    let key = ClassKey::new(class_name.to_owned(), Some(super_class.to_owned()));
    cache.lookup(&key)
}

/// The second step of getting a dynamic class: resolve the superclass alone,
/// through the cache, under a key with an absent superclass field.
/// `looked_up` is the foreign runtime's answer to a class-name lookup for
/// `super_class`, which the caller obtains only on a cache miss. A runtime
/// that does not know the superclass makes registration impossible:
/// `SuperclassNotFound`.
pub fn resolve_superclass(
    cache: &mut ClassCache,
    super_class: &str,
    looked_up: Option<ClassData>,
) -> (r: Result<ClassData, BridgeError>)
    ensures
        final(cache)@ == spec_load(old(cache)@, spec_superclass_key(super_class@), looked_up).1,
        r == (match spec_load(old(cache)@, spec_superclass_key(super_class@), looked_up).0 {
            Option::Some(d) => Ok::<ClassData, BridgeError>(d),
            Option::None => Err::<ClassData, BridgeError>(BridgeError::SuperclassNotFound),
        }),
{
    let key = ClassKey::new(super_class.to_owned(), None);
    match cache.load(&key, looked_up) {
        Some(d) => Ok(d),
        None => Err(BridgeError::SuperclassNotFound),
    }
}

/// The decision after asking the runtime to begin a class declaration under
/// the unique name: a rejected declaration is a `DeclarationFailed`,
/// otherwise method attachment and registration proceed.
pub fn declaration_outcome(accepted: bool) -> (r: Result<(), BridgeError>)
    ensures
        r == (if accepted {
            Ok::<(), BridgeError>(())
        } else {
            Err::<(), BridgeError>(BridgeError::DeclarationFailed)
        }),
{
    if accepted {
        Ok(())
    } else {
        Err(BridgeError::DeclarationFailed)
    }
}

/// The last step of getting a dynamic class: store the freshly registered
/// class in the cache under the *logical* key — not the unique runtime name,
/// which callers never see — and return it, so the next request for the same
/// logical pair hits the cache instead of registering again.
pub fn get_class_registered(
    cache: &mut ClassCache,
    super_class: &str,
    class_name: &str,
    registered: ClassData,
) -> (r: Option<ClassData>)
    ensures
        final(cache)@ == old(cache)@.insert(
            spec_logical_key(super_class@, class_name@),
            registered,
        ),
        r == Some::<ClassData>(registered),
{
    let key = ClassKey::new(class_name.to_owned(), Some(super_class.to_owned()));
    let _ = cache.save(key, registered);
    Some(registered)
}

/// Once a `load` has returned a class for a key, every later `load` for the
/// same key returns that same class and leaves the cache unchanged, whatever
/// answer a repeated foreign lookup would have given — the foreign lookup is
/// never consulted again.
pub proof fn lemma_load_idempotent(
    m: Map<ClassKeyView, ClassData>,
    k: ClassKeyView,
    first: Option<ClassData>,
    later: Option<ClassData>,
)
    requires
        spec_load(m, k, first).0 is Some,
    ensures
        spec_load(spec_load(m, k, first).1, k, later) == (
            spec_load(m, k, first).0,
            spec_load(m, k, first).1,
        ),
{
}

/// A miss is never cached: a `load` for a class the runtime does not know
/// returns absent and leaves the cache as it was, and a later `save` for the
/// same key is observed by the next `load`, whatever that load's own lookup
/// answer is.
pub proof fn lemma_miss_never_cached(
    m: Map<ClassKeyView, ClassData>,
    k: ClassKeyView,
    d: ClassData,
    later: Option<ClassData>,
)
    requires
        !m.contains_key(k),
    ensures
        spec_load(m, k, None) == (None::<ClassData>, m),
        spec_load(m.insert(k, d), k, later) == (Some(d), m.insert(k, d)),
{
}

/// Logical-key stability of dynamic registration: once a registered class is
/// stored under its logical pair, a repeat request for the same pair is a
/// cache hit that returns the very same class data — no re-registration,
/// even though the unique runtime name of the class differs from the logical
/// name.
pub proof fn lemma_logical_key_stability(
    m: Map<ClassKeyView, ClassData>,
    super_name: Seq<char>,
    class_name: Seq<char>,
    registered: ClassData,
)
    ensures
        spec_lookup(
            m.insert(spec_logical_key(super_name, class_name), registered),
            spec_logical_key(super_name, class_name),
        ) == Some(registered),
{
}

/// Relies on `uuid::Uuid::new_v4` and the `Display` form of `uuid::Uuid`: a
/// fresh random identifier, rendered hyphenated as exactly 36 characters.
/// The value is random, so nothing beyond its length is promised.
#[verifier::external_body]
fn fresh_unique_id() -> (r: String)
    ensures
        r@.len() == 36,
{
    uuid::Uuid::new_v4().to_string()
}

/// Generate the debug-readable collision-resistant name for a dynamic class:
/// the debug name, a fresh 36-character unique identifier, and a fixed
/// suffix, separated by underscores. Distinctness of repeated calls rests on
/// the randomness of the identifier and is therefore not promised here.
pub fn generate_class_name(debug_name: &str) -> (r: String)
    ensures
        exists|u: Seq<char>|
            u.len() == 36 && r@ == debug_name@ + "_"@ + u + "_"@ + "apple_rs_debug"@,
{
    let unique = fresh_unique_id();
    let mut r = debug_name.to_owned();
    r.append("_");
    r.append(unique.as_str());
    r.append("_");
    r.append("apple_rs_debug");
    proof {
        let u = unique@;
        assert(u.len() == 36 && r@ == debug_name@ + "_"@ + u + "_"@ + "apple_rs_debug"@);
    }
    r
}

/// Generate the obfuscated collision-resistant name for a dynamic class, for
/// builds that should not leak readable names: a fresh 36-character unique
/// identifier and a fixed suffix, separated by an underscore.
pub fn generate_obfuscated_class_name() -> (r: String)
    ensures
        exists|u: Seq<char>| u.len() == 36 && r@ == u + "_"@ + "apple_rs"@,
{
    let unique = fresh_unique_id();
    let ghost u = unique@;
    let mut r = unique;
    r.append("_");
    r.append("apple_rs");
    proof {
        assert(u.len() == 36 && r@ == u + "_"@ + "apple_rs"@);
    }
    r
}

/// The prefix under which every unique runtime name for a given logical pair
/// begins: the superclass name, the logical class name, and a trailing
/// underscore, underscore-separated.
pub open spec fn spec_unique_name_prefix(super_name: Seq<char>, class_name: Seq<char>) -> Seq<
    char,
> {
    super_name + "_"@ + class_name + "_"@
}

/// Generate the process-unique runtime name for a dynamic class: the
/// superclass name, the logical class name and a fresh 36-character unique
/// identifier, underscore-separated. The name determines the logical pair it
/// was generated for — it always begins with `super_class`, `_`,
/// `class_name`, `_` — while collisions between repeated calls are avoided
/// by the randomness of the identifier.
pub fn generate_unique_class_name(super_class: &str, class_name: &str) -> (r: String)
    ensures
        exists|u: Seq<char>|
            u.len() == 36 && r@ == spec_unique_name_prefix(super_class@, class_name@) + u,
        r@.len() == super_class@.len() + class_name@.len() + 38,
        r@.subrange(0, super_class@.len() + class_name@.len() + 2 as int) == spec_unique_name_prefix(
            super_class@,
            class_name@,
        ),
{
    let unique = fresh_unique_id();
    let mut r = super_class.to_owned();
    r.append("_");
    r.append(class_name);
    r.append("_");
    r.append(unique.as_str());
    proof {
        reveal_strlit("_");
        let u = unique@;
        let prefix = spec_unique_name_prefix(super_class@, class_name@);
        assert(u.len() == 36 && r@ == prefix + u);
        assert(r@.subrange(0, prefix.len() as int) =~= prefix);
    }
    r
}

} // verus!
