use std::collections::HashMap;
use vstd::prelude::*;

use crate::error::{VcxError, VcxErrorKind};

verus! {

broadcast use vstd::std_specs::hash::group_hash_axioms;

/// What a mutator passed to `ObjectCache::get_mut` hands back: the value to
/// store in place of the one it received, and an output for the caller.
pub struct Mutation<T, R> {
    pub value: T,
    pub output: R,
}

/// A store that owns live protocol instances and hands out integer handles
/// for them. Handles are issued in increasing order starting at 1 and are
/// never issued twice, so a released handle stays invalid for good.
pub struct ObjectCache<T> {
    store: HashMap<u32, T>,
    next_handle: u32,
}

impl<T> View for ObjectCache<T> {
    type V = Map<u32, T>;

    closed spec fn view(&self) -> Map<u32, T> {
        self.store@
    }
}

impl<T> ObjectCache<T> {
    /// The handle that the next successful `add` returns.
    pub closed spec fn next_spec(&self) -> u32 {
        self.next_handle
    }

    /// Whether `h` was ever handed out by this registry.
    pub open spec fn issued(&self, h: u32) -> bool {
        0 < h < self.next_spec()
    }

    /// Every live handle was issued, and the counter never wraps to 0.
    pub closed spec fn wf(&self) -> bool {
        &&& self.next_handle >= 1
        &&& forall|h: u32| #[trigger] self.store@.contains_key(h) ==> 0 < h < self.next_handle
    }

    pub fn new() -> (r: ObjectCache<T>)
        ensures
            r.wf(),
            r@ == Map::<u32, T>::empty(),
            r.next_spec() == 1,
    {
        ObjectCache { store: HashMap::new(), next_handle: 1 }
    }

    /// Stores `value` under a fresh handle.
    pub fn add(&mut self, value: T) -> (r: Result<u32, VcxError>)
        requires
            old(self).wf(),
        ensures
            final(self).wf(),
            match r {
                Ok(h) => {
                    &&& h == old(self).next_spec()
                    &&& !old(self)@.contains_key(h)
                    &&& final(self)@ == old(self)@.insert(h, value)
                    &&& final(self).next_spec() == h + 1
                },
                Err(e) => {
                    &&& old(self).next_spec() == u32::MAX
                    &&& e.kind == VcxErrorKind::ObjectCacheError
                    &&& *final(self) == *old(self)
                },
            },
            old(self).next_spec() < u32::MAX <==> r.is_ok(),
    {
        if self.next_handle == u32::MAX {
            return Err(VcxError::from_kind(VcxErrorKind::ObjectCacheError));
        }
        let h = self.next_handle;
        self.store.insert(h, value);
        self.next_handle = h + 1;
        Ok(h)
    }

    pub fn has_handle(&self, h: u32) -> (r: bool)
        requires
            self.wf(),
        ensures
            r == self@.contains_key(h),
    {
        self.store.contains_key(&h)
    }

    /// Read access to the value stored under `h`.
    pub fn get(&self, h: u32) -> (r: Result<&T, VcxError>)
        requires
            self.wf(),
        ensures
            match r {
                Ok(v) => self@.contains_key(h) && *v == self@[h],
                Err(e) => !self@.contains_key(h) && e.kind == VcxErrorKind::InvalidHandle,
            },
    {
        match self.store.get(&h) {
            Some(v) => Ok(v),
            None => Err(VcxError::from_kind(VcxErrorKind::InvalidHandle)),
        }
    }

    /// Exclusive access to the value stored under `h`: `mutator` receives the
    /// value, and the value it hands back is stored in its place.
    pub fn get_mut<R, F: FnOnce(T) -> Mutation<T, R>>(&mut self, h: u32, mutator: F) -> (r: Result<
        R,
        VcxError,
    >)
        requires
            old(self).wf(),
            old(self)@.contains_key(h) ==> mutator.requires((old(self)@[h],)),
        ensures
            final(self).wf(),
            final(self).next_spec() == old(self).next_spec(),
            match r {
                Ok(x) => {
                    &&& old(self)@.contains_key(h)
                    &&& final(self)@.dom() == old(self)@.dom()
                    &&& final(self)@ == old(self)@.insert(h, final(self)@[h])
                    &&& exists|m: Mutation<T, R>| #[trigger] mutator.ensures((old(self)@[h],), m) && m.value == final(self)@[h] && m.output == x
                },
                Err(e) => {
                    &&& !old(self)@.contains_key(h)
                    &&& e.kind == VcxErrorKind::InvalidHandle
                    &&& final(self)@ == old(self)@
                },
            },
    {
        match self.store.remove(&h) {
            Some(v) => {
                let m = mutator(v);
                let Mutation { value, output } = m;
                self.store.insert(h, value);
                assert(self.store@ =~= old(self)@.insert(h, value));
                Ok(output)
            },
            None => Err(VcxError::from_kind(VcxErrorKind::InvalidHandle)),
        }
    }

    /// Removes the entry under `h` and hands its value back.
    pub fn release(&mut self, h: u32) -> (r: Result<T, VcxError>)
        requires
            old(self).wf(),
        ensures
            final(self).wf(),
            final(self).next_spec() == old(self).next_spec(),
            final(self)@ == old(self)@.remove(h),
            match r {
                Ok(v) => old(self)@.contains_key(h) && v == old(self)@[h],
                Err(e) => !old(self)@.contains_key(h) && e.kind == VcxErrorKind::InvalidHandle,
            },
    {
        match self.store.remove(&h) {
            Some(v) => Ok(v),
            None => {
                assert(self.store@ =~= old(self)@.remove(h));
                Err(VcxError::from_kind(VcxErrorKind::InvalidHandle))
            },
        }
    }

    /// Removes every entry.
    pub fn drain(&mut self)
        requires
            old(self).wf(),
        ensures
            final(self).wf(),
            final(self).next_spec() == old(self).next_spec(),
            final(self)@ == Map::<u32, T>::empty(),
    {
        self.store.clear();
    }
}

} // verus!
