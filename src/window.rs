use vstd::prelude::*;

use crate::errors::{Result, TaError};

verus! {

/// One step of the FIFO discipline on the sequence of held observations,
/// oldest first: append while there is room, else drop the oldest and append.
pub open spec fn step<T>(capacity: nat, held: Seq<T>, x: T) -> Seq<T> {
    if held.len() < capacity {
        held.push(x)
    } else {
        held.drop_first().push(x)
    }
}

/// The held observations after feeding `xs`, in order, to a window holding `held`.
pub open spec fn fed<T>(capacity: nat, held: Seq<T>, xs: Seq<T>) -> Seq<T>
    decreases xs.len(),
{
    if xs.len() == 0 {
        held
    } else {
        step(capacity, fed(capacity, held, xs.drop_last()), xs.last())
    }
}

/// What each push returns when `xs` is fed, in order, to a window holding `held`:
/// nothing while there is room, else the oldest held observation.
pub open spec fn evictions<T>(capacity: nat, held: Seq<T>, xs: Seq<T>) -> Seq<Option<T>>
    decreases xs.len(),
{
    if xs.len() == 0 {
        Seq::empty()
    } else {
        let before = fed(capacity, held, xs.drop_last());
        evictions(capacity, held, xs.drop_last()).push(
            if before.len() < capacity {
                None
            } else {
                Some(before[0])
            },
        )
    }
}

/// The last `min(|xs|, capacity)` elements of `xs`.
pub open spec fn latest<T>(capacity: nat, xs: Seq<T>) -> Seq<T> {
    if xs.len() <= capacity {
        xs
    } else {
        xs.subrange(xs.len() - capacity, xs.len() as int)
    }
}

/// A fixed-capacity circular buffer of the most recent observations.
///
/// Slots are filled in order until the capacity is reached; after that each
/// new observation overwrites the physically oldest slot, found through a
/// write cursor, so memory stays bounded by the capacity for any stream length.
#[derive(Clone, Debug)]
pub struct RingWindow<T> {
    slots: Vec<T>,
    capacity: usize,
    cursor: usize,
}

impl<T> RingWindow<T> {
    /// Physical index of the `i`-th oldest held observation.
    spec fn slot_of(&self, i: int) -> int {
        if self.cursor + i < self.slots.len() {
            self.cursor + i
        } else {
            self.cursor + i - self.slots.len()
        }
    }

    /// The window's invariant: a positive capacity, never more slots than it,
    /// and a cursor that stays at the first slot until every slot is used.
    pub closed spec fn wf(&self) -> bool {
        &&& 0 < self.capacity
        &&& self.slots.len() <= self.capacity
        &&& self.cursor < self.capacity
        &&& self.slots.len() < self.capacity ==> self.cursor == 0
    }

    pub closed spec fn capacity_spec(&self) -> nat {
        self.capacity as nat
    }
}

impl<T> View for RingWindow<T> {
    type V = Seq<T>;

    /// The held observations, oldest first.
    closed spec fn view(&self) -> Seq<T> {
        Seq::new(self.slots.len() as nat, |i: int| self.slots@[self.slot_of(i)])
    }
}

impl<T: Copy> RingWindow<T> {
    /// Creates an empty window; a zero capacity is rejected.
    pub fn new(capacity: usize) -> (r: Result<Self>)
        ensures
            r is Ok <==> capacity > 0,
            r is Err ==> r == Err::<Self, TaError>(TaError::InvalidParameter),
            r matches Ok(w) ==> w.wf() && w.capacity_spec() == capacity && w@ == Seq::<T>::empty(),
    {
        if capacity == 0 {
            return Err(TaError::InvalidParameter);
        }
        let w = RingWindow { slots: Vec::new(), capacity, cursor: 0 };
        assert(w@ =~= Seq::<T>::empty());
        Ok(w)
    }

    /// The configured window length.
    pub fn capacity(&self) -> (r: usize)
        ensures
            r == self.capacity_spec(),
    {
        self.capacity
    }

    /// How many observations are held: the number seen so far, capped at the capacity.
    pub fn len(&self) -> (r: usize)
        requires
            self.wf(),
        ensures
            r == self@.len(),
            r <= self.capacity_spec(),
    {
        self.slots.len()
    }

    pub fn is_empty(&self) -> (r: bool)
        requires
            self.wf(),
        ensures
            r <==> self@.len() == 0,
    {
        self.slots.len() == 0
    }

    /// Whether the next push evicts the oldest observation.
    pub fn is_full(&self) -> (r: bool)
        requires
            self.wf(),
        ensures
            r <==> self@.len() == self.capacity_spec(),
    {
        self.slots.len() == self.capacity
    }

    /// The `i`-th held observation, oldest first.
    pub fn get(&self, i: usize) -> (r: T)
        requires
            self.wf(),
            i < self@.len(),
        ensures
            r == self@[i as int],
    {
        let j: usize = if self.cursor < self.slots.len() - i {
            self.cursor + i
        } else {
            self.cursor - (self.slots.len() - i)
        };
        self.slots[j]
    }

    /// The held observations, oldest first, as a vector.
    pub fn to_vec(&self) -> (r: Vec<T>)
        requires
            self.wf(),
        ensures
            r@ == self@,
    {
        let mut out: Vec<T> = Vec::new();
        let n = self.slots.len();
        let mut i: usize = 0;
        while i < n
            invariant
                self.wf(),
                n == self@.len(),
                i <= n,
                out@ == self@.subrange(0, i as int),
            decreases n - i,
        {
            let x = self.get(i);
            out.push(x);
            i += 1;
            assert(out@ =~= self@.subrange(0, i as int));
        }
        assert(out@ =~= self@);
        out
    }

    /// Feeds one observation. While there is room it is appended and `None`
    /// comes back; once the window is full the physically oldest observation
    /// is overwritten and returned.
    pub fn push(&mut self, x: T) -> (r: Option<T>)
        requires
            old(self).wf(),
        ensures
            final(self).wf(),
            final(self).capacity_spec() == old(self).capacity_spec(),
            final(self)@ == step(old(self).capacity_spec(), old(self)@, x),
            old(self)@.len() < old(self).capacity_spec() ==> r is None,
            old(self)@.len() == old(self).capacity_spec() ==> r == Some(old(self)@[0]),
    {
        let ghost before = self@;
        if self.slots.len() < self.capacity {
            self.slots.push(x);
            assert(self@ =~= before.push(x));
            None
        } else {
            let c = self.cursor;
            let evicted = self.slots[c];
            self.slots.set(c, x);
            self.cursor = if c + 1 == self.capacity { 0 } else { c + 1 };
            assert(self@ =~= before.drop_first().push(x));
            Some(evicted)
        }
    }

    /// Feeds each element of `xs` in order and returns what each push returned.
    pub fn feed(&mut self, xs: &Vec<T>) -> (r: Vec<Option<T>>)
        requires
            old(self).wf(),
        ensures
            final(self).wf(),
            final(self).capacity_spec() == old(self).capacity_spec(),
            final(self)@ == fed(old(self).capacity_spec(), old(self)@, xs@),
            r@ == evictions(old(self).capacity_spec(), old(self)@, xs@),
    {
        let ghost cap = self.capacity_spec();
        let ghost start = self@;
        let mut out: Vec<Option<T>> = Vec::new();
        let mut i: usize = 0;
        while i < xs.len()
            invariant
                self.wf(),
                self.capacity_spec() == cap,
                i <= xs@.len(),
                self@ == fed(cap, start, xs@.subrange(0, i as int)),
                out@ == evictions(cap, start, xs@.subrange(0, i as int)),
            decreases xs@.len() - i,
        {
            let ghost prefix = xs@.subrange(0, i as int);
            let e = self.push(xs[i]);
            out.push(e);
            i += 1;
            assert(xs@.subrange(0, i as int).drop_last() =~= prefix);
        }
        assert(xs@.subrange(0, xs@.len() as int) =~= xs@);
        out
    }

    /// Discards every held observation, keeping the capacity.
    pub fn reset(&mut self)
        requires
            old(self).wf(),
        ensures
            final(self).wf(),
            final(self).capacity_spec() == old(self).capacity_spec(),
            final(self)@ == Seq::<T>::empty(),
    {
        self.slots.clear();
        self.cursor = 0;
        assert(self@ =~= Seq::<T>::empty());
    }
}

/// Feeding any stream to an empty window of positive capacity `n` leaves it
/// holding exactly the last `min(|xs|, n)` observations of the stream, oldest
/// first: eviction is strict FIFO by arrival, never by value.
pub proof fn lemma_fed_holds_latest<T>(capacity: nat, xs: Seq<T>)
    requires
        capacity > 0,
    ensures
        fed(capacity, Seq::<T>::empty(), xs) == latest(capacity, xs),
    decreases xs.len(),
{
    if xs.len() > 0 {
        lemma_fed_holds_latest(capacity, xs.drop_last());
        let prev = latest(capacity, xs.drop_last());
        assert(step(capacity, prev, xs.last()) =~= latest(capacity, xs));
    }
}

/// From an empty window of positive capacity `n`, the `i`-th push of a stream
/// evicts nothing while `i < n` and otherwise evicts the observation that
/// arrived `n` pushes earlier. A window that was reset therefore replays any
/// stream exactly as a freshly created window of the same capacity does.
pub proof fn lemma_evictions_from_empty<T>(capacity: nat, xs: Seq<T>)
    requires
        capacity > 0,
    ensures
        evictions(capacity, Seq::<T>::empty(), xs).len() == xs.len(),
        forall|i: int|
            0 <= i < xs.len() ==> #[trigger] evictions(capacity, Seq::<T>::empty(), xs)[i] == (
            if i < capacity {
                None
            } else {
                Some(xs[i - capacity])
            }),
    decreases xs.len(),
{
    if xs.len() > 0 {
        let init = xs.drop_last();
        lemma_evictions_from_empty(capacity, init);
        lemma_fed_holds_latest(capacity, init);
        let e = evictions(capacity, Seq::<T>::empty(), xs);
        assert forall|i: int| 0 <= i < xs.len() implies #[trigger] e[i] == (if i < capacity {
            None
        } else {
            Some(xs[i - capacity])
        }) by {
            if i < init.len() {
                assert(e[i] == evictions(capacity, Seq::<T>::empty(), init)[i]);
            }
        }
    }
}

} // verus!
