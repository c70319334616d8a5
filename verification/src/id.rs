use vstd::multiset::Multiset;
use vstd::prelude::*;

verus! {

/// Raw representation of a handle to a foreign runtime object: an opaque
/// address. Zero denotes absence and must never be messaged.
pub type RawId = usize;

/// An owning reference to a foreign runtime object.
///
/// Construction adopts a handle that already carries the allocation's
/// implicit +1 reference count, so no extra retain is issued. At end of life
/// exactly one release message is owed against the stored handle — unless the
/// handle is null, in which case none is. The unverified glue that talks to
/// the runtime consumes the wrapper through [`ObjcId::end_of_life`], whose
/// result says whether a release message must be sent; consuming `self` makes
/// a second release for the same wrapper impossible.
pub struct ObjcId(pub RawId);

/// The release obligation of one owning reference at end of life: the handle
/// to send a release message to, or nothing for a null handle.
pub open spec fn spec_release_action(handle: ObjcId) -> Option<RawId> {
    if handle.0 != 0 {
        Some(handle.0)
    } else {
        None
    }
}

impl ObjcId {
    /// Adopt a handle that already carries its allocation's +1 count.
    pub fn new(ptr: RawId) -> (r: Self)
        ensures
            r.0 == ptr,
    {
        ObjcId(ptr)
    }

    /// Borrow the underlying handle for message dispatch; ownership is not
    /// transferred, and the caller must not release the returned handle.
    pub fn raw(&self) -> (r: RawId)
        ensures
            r == self.0,
    {
        self.0
    }

    /// Whether the stored handle denotes absence; a null handle must never
    /// be messaged and is never released.
    pub fn is_null(&self) -> (r: bool)
        ensures
            r == (self.0 == 0),
    {
        self.0 == 0
    }

    /// Consume the reference and report its release obligation: `Some` holds
    /// the handle the caller must send exactly one release message to; `None`
    /// means the handle was null and releasing is short-circuited.
    pub fn end_of_life(self) -> (r: Option<RawId>)
        ensures
            r == spec_release_action(self),
    {
        if self.0 != 0 {
            Some(self.0)
        } else {
            None
        }
    }
}

/// How many release messages a collection of owning references issues when
/// all of them reach end of life. A multiset carries no order, so the count
/// is independent of the order in which the references are dropped.
pub open spec fn spec_releases_issued(dropped: Multiset<ObjcId>) -> nat {
    dropped.filter(|h: ObjcId| h.0 != 0).len()
}

/// Dropping a collection of owning references over non-null handles issues
/// exactly one release message per reference — as many messages as
/// references, never more, never fewer, in whatever order they are dropped.
pub proof fn lemma_release_exactly_once(dropped: Multiset<ObjcId>)
    requires
        forall|h: ObjcId| dropped.count(h) > 0 ==> h.0 != 0,
    ensures
        spec_releases_issued(dropped) == dropped.len(),
    decreases dropped.len(),
{
    broadcast use vstd::multiset::group_multiset_axioms;

    let p = |h: ObjcId| h.0 != 0;
    if dropped.len() == 0 {
        assert(dropped.filter(p) =~= Multiset::empty()) by {
            assert forall|h: ObjcId| dropped.filter(p).count(h) == 0 by {
                assert(dropped.count(h) <= dropped.len());
            }
        }
    } else {
        let v = dropped.choose();
        assert(dropped.count(v) > 0);
        let rest = dropped.remove(v);
        assert(forall|h: ObjcId| rest.count(h) > 0 ==> dropped.count(h) > 0);
        lemma_release_exactly_once(rest);
        assert(dropped.filter(p) =~= rest.filter(p).insert(v));
        assert(rest.filter(p).insert(v).len() == rest.filter(p).len() + 1);
    }
}

} // verus!
