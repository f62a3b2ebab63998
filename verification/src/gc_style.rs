//! Reference counting: one object on the heap, reached through handles that
//! are counted, and released with the last of them.

use vstd::prelude::*;
use std::time::Duration;
use std::time::Instant;
use crate::clock;
use crate::clock::span_between;
use crate::zeroed;

verus! {

/// The size of the object that the demonstration creates.
pub const DEMO_SIZE: usize = 1000;

/// The object that the handles share: its bytes and the instant of its creation.
pub struct GcObject {
    data: Vec<u8>,
    allocated_at: Instant,
}

/// One reference to a shared object. It cannot be copied: a further reference
/// is made by `SharedObject::duplicate`, and `SharedObject::dispose` uses the
/// handle up.
pub struct GcHandle {
    slot: usize,
}

/// A shared object together with the count of the handles that reach it.
pub struct SharedObject {
    object: Option<GcObject>,
    slots: Vec<bool>,
    strong: usize,
    releases: usize,
}

/// The reference counts that one create, duplicate, dispose cycle observed.
pub struct GcTrace {
    /// The size of the object that was created.
    pub size: usize,
    /// The count with the first handle alone.
    pub count_after_create: usize,
    /// The count once the handle was duplicated.
    pub count_after_duplicate: usize,
    /// The count once the duplicate was disposed of.
    pub count_after_dispose: usize,
    /// The count once the first handle was disposed of too.
    pub count_at_end: usize,
    /// How often the storage was released over the whole cycle.
    pub releases: usize,
}

impl GcHandle {
    /// What tells this handle from the other handles of its object.
    pub closed spec fn id(&self) -> int {
        self.slot as int
    }
}

impl GcObject {
    /// The bytes of the object.
    pub closed spec fn view(&self) -> Seq<u8> {
        self.data@
    }

    /// The instant that the object was created at.
    pub closed spec fn created(&self) -> Instant {
        self.allocated_at
    }

    /// Creates a shared object of `size` zero bytes, stamped with the current
    /// instant, and the first handle to it.
    pub fn new(size: usize) -> (created: (SharedObject, GcHandle))
        ensures
            created.0.wf(),
            created.0.live_handles() == set![created.1.id()],
            created.0.payload() == Some(zeroed(size as nat)),
            created.0.release_count() == 0,
    {
        let data = vec![0u8; size];
        assert(data@ =~= zeroed(size as nat));
        let object = GcObject { data, allocated_at: clock::now() };
        let shared = SharedObject { object: Some(object), slots: vec![true], strong: 1, releases: 0 };
        assert(shared.live_handles() =~= set![0int]);
        (shared, GcHandle { slot: 0 })
    }

    /// The number of bytes in the object.
    pub fn size(&self) -> (size: usize)
        ensures
            size == self@.len(),
    {
        self.data.len()
    }

    /// How old the object was at the instant `now`: the time from its
    /// creation to `now`.
    pub fn age_at(&self, now: &Instant) -> (age: Duration)
        ensures
            age == span_between(self.created(), *now),
    {
        clock::span(&self.allocated_at, now)
    }

    /// How old the object is: the time from its creation to the instant at
    /// which the clock is read.
    pub fn age(&self) -> (age: Duration)
        ensures
            exists|now: Instant| age == span_between(self.created(), now),
    {
        let now = clock::now();
        self.age_at(&now)
    }

    /// Creates an object of `DEMO_SIZE` bytes, duplicates its handle, disposes
    /// of the duplicate and then of the first handle, and reads the count
    /// after each step.
    pub fn demonstrate_gc() -> (trace: GcTrace)
        ensures
            trace.size == DEMO_SIZE,
            trace.count_after_create == 1,
            trace.count_after_duplicate == 2,
            trace.count_after_dispose == 1,
            trace.count_at_end == 0,
            trace.releases == 1,
    {
        let (mut shared, obj1) = GcObject::new(DEMO_SIZE);
        let count_after_create = shared.strong_count();
        let obj2 = shared.duplicate(&obj1);
        let count_after_duplicate = shared.strong_count();
        shared.dispose(obj2);
        let count_after_dispose = shared.strong_count();
        shared.dispose(obj1);
        let count_at_end = shared.strong_count();
        GcTrace {
            size: DEMO_SIZE,
            count_after_create,
            count_after_duplicate,
            count_after_dispose,
            count_at_end,
            releases: shared.releases(),
        }
    }
}

impl SharedObject {
    /// The handles that reach the object at present.
    pub closed spec fn live_handles(&self) -> Set<int> {
        Set::new(|i: int| 0 <= i < self.slots@.len() && self.slots@[i])
    }

    /// The bytes of the object, or `None` once its storage is released.
    pub closed spec fn payload(&self) -> Option<Seq<u8>> {
        match self.object {
            Some(object) => Some(object@),
            None => None,
        }
    }

    /// How often the storage has been released.
    pub closed spec fn release_count(&self) -> nat {
        self.releases as nat
    }

    /// The reference count: the number of live handles.
    pub open spec fn count(&self) -> nat {
        self.live_handles().len()
    }

    /// Whether `handle` reaches the object at present.
    pub open spec fn holds(&self, handle: &GcHandle) -> bool {
        self.live_handles().contains(handle.id())
    }

    /// The count kept is the number of live handles, and the storage is there
    /// exactly as long as a handle is.
    pub closed spec fn wf(&self) -> bool {
        &&& self.live_handles().finite()
        &&& self.strong == self.live_handles().len()
        &&& self.strong <= self.slots@.len()
        &&& self.object is Some <==> self.strong > 0
        &&& self.releases == if self.strong > 0 { 0usize } else { 1usize }
    }

    /// The reference count.
    pub fn strong_count(&self) -> (count: usize)
        requires
            self.wf(),
        ensures
            count == self.count(),
    {
        self.strong
    }

    /// Whether `handle` reaches the object at present.
    pub fn is_live(&self, handle: &GcHandle) -> (live: bool)
        ensures
            live == self.holds(handle),
    {
        handle.slot < self.slots.len() && self.slots[handle.slot]
    }

    /// How often the storage has been released.
    pub fn releases(&self) -> (releases: usize)
        ensures
            releases == self.release_count(),
    {
        self.releases
    }

    /// The size of the object, or `None` once its storage is released.
    pub fn payload_size(&self) -> (size: Option<usize>)
        ensures
            size == match self.payload() {
                Some(bytes) => Some(bytes.len() as usize),
                None => None,
            },
    {
        match &self.object {
            Some(object) => Some(object.data.len()),
            None => None,
        }
    }

    /// Lends out the object that `handle` reaches: while a handle is live the
    /// object is there to be read.
    #[allow(unused_variables)]
    pub fn get(&self, handle: &GcHandle) -> (object: &GcObject)
        requires
            self.wf(),
            self.holds(handle),
        ensures
            self.payload() == Some(object@),
    {
        self.object.as_ref().unwrap()
    }

    /// Makes a further handle to the object that `handle` reaches. The count
    /// goes up by one and the object stays as it is.
    #[allow(unused_variables)]
    pub fn duplicate(&mut self, handle: &GcHandle) -> (copy: GcHandle)
        requires
            old(self).wf(),
            old(self).holds(handle),
        ensures
            final(self).wf(),
            !old(self).holds(&copy),
            final(self).live_handles() == old(self).live_handles().insert(copy.id()),
            final(self).count() == old(self).count() + 1,
            final(self).payload() == old(self).payload(),
            final(self).release_count() == old(self).release_count(),
    {
        let slot = self.slots.len();
        self.slots.push(true);
        assert(self.strong < self.slots.len());
        self.strong = self.strong + 1;
        assert(self.live_handles() =~= old(self).live_handles().insert(slot as int));
        GcHandle { slot }
    }

    /// Gives up `handle`. The count goes down by one, and the storage is
    /// released if that was the last handle: the result says whether it was.
    pub fn dispose(&mut self, handle: GcHandle) -> (released: bool)
        requires
            old(self).wf(),
            old(self).holds(&handle),
        ensures
            final(self).wf(),
            final(self).live_handles() == old(self).live_handles().remove(handle.id()),
            final(self).count() == old(self).count() - 1,
            released == (old(self).count() == 1),
            final(self).payload() == if released { None } else { old(self).payload() },
            final(self).release_count() == old(self).release_count() + if released { 1nat } else { 0nat },
    {
        self.slots[handle.slot] = false;
        self.strong = self.strong - 1;
        assert(self.live_handles() =~= old(self).live_handles().remove(handle.slot as int));
        if self.strong == 0 {
            self.object = None;
            self.releases = self.releases + 1;
            true
        } else {
            false
        }
    }
}

/// The storage follows the count: it is there while the count is above zero,
/// it is gone once the count is zero, and it has then been released once and
/// never before.
pub proof fn lemma_storage_follows_count(shared: SharedObject)
    requires
        shared.wf(),
    ensures
        shared.live_handles().finite(),
        shared.payload() is Some <==> shared.count() > 0,
        shared.release_count() == if shared.count() > 0 { 0nat } else { 1nat },
{
}

/// While a handle is live, the count is one more than the number of the other
/// live handles: the first handle and its live duplicates are all there is.
pub proof fn lemma_count_is_one_more_than_others(shared: SharedObject, handle: GcHandle)
    requires
        shared.wf(),
        shared.holds(&handle),
    ensures
        shared.count() == 1 + shared.live_handles().remove(handle.id()).len(),
{
}

/// Once the storage is released no handle is live, so that neither a duplicate
/// nor a second release can be asked for.
pub proof fn lemma_released_is_final(shared: SharedObject, handle: GcHandle)
    requires
        shared.wf(),
        shared.payload() is None,
    ensures
        !shared.holds(&handle),
        shared.count() == 0,
        shared.release_count() == 1,
{
}

} // verus!
