//! The arena: an owning, append-only, order-preserving sequence of values,
//! addressed by a typed handle. The element appended by the k-th allocation
//! sits at raw index k, and the handle minted for it carries exactly that
//! raw value; handles stay valid until the arena is cleared.

use vstd::prelude::*;

use core::marker::PhantomData;

use crate::DEFAULT_ARENA_CAPACITY;
use crate::raw::RawIndex;

verus! {

/// Holds exactly when the callback `f` admits `Ok` as an outcome for some
/// handle whose raw value is `k`.
pub open spec fn visit_ok<Id: RawIndex, E, F: Fn(Id) -> Result<(), E>>(f: F, k: int) -> bool {
    exists|i: Id| #[trigger] call_ensures(f, (i,), Ok::<(), E>(())) && i.as_int() == k
}

/// Holds exactly when the callback `f` admits the failure `e` as an outcome
/// for some handle whose raw value is `k`.
pub open spec fn visit_err<Id: RawIndex, E, F: Fn(Id) -> Result<(), E>>(
    f: F,
    k: int,
    e: E,
) -> bool {
    exists|i: Id| #[trigger] call_ensures(f, (i,), Err::<(), E>(e)) && i.as_int() == k
}

/// An owning, growable sequence of `T`, addressed by the handle type `Id`.
///
/// The mathematical model (the view) is the sequence of stored elements in
/// insertion order. The element stored by the k-th allocation has raw index
/// k; no operation removes or reorders elements short of a full [`clear`],
/// so raw indices are stable positions, not memory addresses.
///
/// [`clear`]: Arena::clear
#[derive(Debug)]
pub struct Arena<Id, T> {
    buffer: Vec<T>,
    phantom: PhantomData<Id>,
}

impl<Id, T> View for Arena<Id, T> {
    type V = Seq<T>;

    closed spec fn view(&self) -> Seq<T> {
        self.buffer@
    }
}

/// Relies on `Vec::capacity`: the allocated room of a vector is never
/// smaller than its length.
#[verifier::external_body]
fn vec_capacity<T>(v: &Vec<T>) -> (r: usize)
    ensures
        r >= v@.len(),
{
    v.capacity()
}

impl<Id: RawIndex, T> Arena<Id, T> {
    /// Creates an empty arena with room for at least `cap` elements.
    pub fn with_capacity(cap: usize) -> (r: Self)
        ensures
            r@ == Seq::<T>::empty(),
    {
        Arena { buffer: Vec::with_capacity(cap), phantom: PhantomData }
    }

    /// Builds an arena that stores exactly the given elements, in order, so
    /// that the element at position k gets raw index k. This is how a
    /// decoded sequence becomes an arena again.
    pub fn from_elements(elements: Vec<T>) -> (r: Self)
        ensures
            r@ == elements@,
    {
        Arena { buffer: elements, phantom: PhantomData }
    }

    /// A read-only view of all elements in insertion (ID) order.
    pub fn slice(&self) -> (r: &[T])
        ensures
            r@ == self@,
    {
        self.buffer.as_slice()
    }

    /// Ensures room for at least `size` more elements; the contents are
    /// untouched, and every issued handle keeps its meaning, because
    /// handles are positions, not addresses.
    pub fn reserve(&mut self, size: usize)
        ensures
            final(self)@ == old(self)@,
    {
        self.buffer.reserve(size)
    }

    /// The number of elements held.
    #[inline(always)]
    pub fn len(&self) -> (r: usize)
        ensures
            r == self@.len(),
    {
        self.buffer.len()
    }

    /// How many elements the backing storage can hold without reallocating;
    /// at least [`len`](Arena::len).
    #[inline(always)]
    pub fn capacity(&self) -> (r: usize)
        ensures
            r >= self@.len(),
    {
        vec_capacity(&self.buffer)
    }

    /// The central operation: mints the handle the new element will get
    /// (raw value = current length), hands it to the builder, then appends
    /// the builder's result. The builder thus sees the very position its
    /// result will occupy, which lets an element embed its own handle.
    pub fn allocate<F: FnOnce(Id) -> T>(&mut self, func: F) -> (id: Id)
        requires
            old(self)@.len() <= Id::max_int(),
            forall|i: Id| i.as_int() == old(self)@.len() ==> call_requires(func, (i,)),
        ensures
            id.as_int() == old(self)@.len(),
            final(self)@.len() == old(self)@.len() + 1,
            final(self)@.subrange(0, old(self)@.len() as int) == old(self)@,
            call_ensures(func, (id,), final(self)@[old(self)@.len() as int]),
    {
        let i = Id::from_index(self.buffer.len());
        let v = func(i);
        self.buffer.push(v);
        proof {
            assert(self@.subrange(0, old(self)@.len() as int) =~= old(self)@);
        }
        i
    }

    /// True exactly when no element is held.
    #[inline(always)]
    pub fn is_empty(&self) -> (r: bool)
        ensures
            r == (self@.len() == 0),
    {
        self.buffer.is_empty()
    }

    /// Removes every element and resets the length to zero, keeping the
    /// backing capacity. Handles issued before the call dangle afterwards;
    /// allocation starts again from raw index 0.
    #[inline(always)]
    pub fn clear(&mut self)
        ensures
            final(self)@ == Seq::<T>::empty(),
    {
        self.buffer.clear()
    }

    /// A reference to the element at the position the handle carries.
    ///
    /// Indexing with a handle at or past the current length is a contract
    /// violation — an ID from a cleared arena or from another arena — and
    /// is ruled out by the precondition rather than handled at run time.
    pub fn index(&self, id: Id) -> (r: &T)
        requires
            0 <= id.as_int() < self@.len(),
        ensures
            *r == self@[id.as_int()],
    {
        proof {
            vstd::std_specs::vec::axiom_spec_len(&self.buffer);
        }
        let k = id.to_index();
        &self.buffer[k]
    }

    /// A mutable reference to the element at the position the handle
    /// carries; the same contract as [`index`](Arena::index).
    pub fn index_mut(&mut self, id: Id) -> (r: &mut T)
        requires
            0 <= id.as_int() < old(self)@.len(),
        ensures
            *r == old(self)@[id.as_int()],
            final(self)@ == old(self)@.update(id.as_int(), *final(r)),
    {
        proof {
            vstd::std_specs::vec::axiom_spec_len(&self.buffer);
        }
        let k = id.to_index();
        &mut self.buffer[k]
    }

    /// The recoverable companion of [`index`](Arena::index): `Some` exactly
    /// when the handle's raw value is a position below the current length,
    /// `None` for everything else, negatives included.
    pub fn get(&self, id: Id) -> (r: Option<&T>)
        ensures
            (0 <= id.as_int() < self@.len()) == (r is Some),
            r matches Some(v) ==> *v == self@[id.as_int()],
    {
        let n = self.buffer.len();
        if id.is_index() {
            let k = id.to_index();
            if k < n {
                Some(&self.buffer[k])
            } else {
                None
            }
        } else {
            None
        }
    }

    /// Calls `f` on a freshly minted handle for every position, in
    /// ascending order 0, 1, ..., len-1, stopping at the first failure and
    /// handing that failure back unchanged.
    ///
    /// On `Ok`, every position was visited with an `Ok` outcome; on
    /// `Err(e)`, some position j failed with exactly `e` and every position
    /// before j was visited with an `Ok` outcome.
    pub fn for_each<E, F: Fn(Id) -> Result<(), E>>(&self, f: F) -> (r: Result<(), E>)
        requires
            self@.len() <= Id::max_int(),
            forall|i: Id| 0 <= i.as_int() < self@.len() ==> call_requires(f, (i,)),
        ensures
            r is Ok ==> forall|k: int| 0 <= k < self@.len() ==> visit_ok::<Id, E, F>(f, k),
            r matches Err(e) ==> (exists|j: int|
                0 <= j < self@.len() && visit_err::<Id, E, F>(f, j, e) && (forall|k: int|
                    0 <= k < j ==> visit_ok::<Id, E, F>(f, k))),
    {
        let mut idx: usize = 0;
        while idx < self.buffer.len()
            invariant
                0 <= idx <= self@.len(),
                self@.len() <= Id::max_int(),
                forall|i: Id| 0 <= i.as_int() < self@.len() ==> call_requires(f, (i,)),
                forall|k: int| 0 <= k < idx ==> visit_ok::<Id, E, F>(f, k),
            decreases self@.len() - idx,
        {
            let id = Id::from_index(idx);
            let res = f(id);
            match res {
                Ok(u) => {
                    proof {
                        assert(u == ());
                        assert(res == Ok::<(), E>(()));
                        assert(call_ensures(f, (id,), Ok::<(), E>(())));
                        assert(visit_ok::<Id, E, F>(f, idx as int));
                    }
                }
                Err(e) => {
                    proof {
                        assert(visit_err::<Id, E, F>(f, idx as int, e));
                    }
                    return Err(e);
                }
            }
            idx += 1;
        }
        Ok(())
    }
}

impl<Id: RawIndex, T: Clone> Arena<Id, T> {
    /// An independent copy of every element, in insertion (ID) order. Each
    /// element of the result is a clone of the element at the same
    /// position; for element types whose clone is exact, the copy equals
    /// the arena's contents.
    pub fn to_vec(&self) -> (r: Vec<T>)
        ensures
            r@.len() == self@.len(),
            forall|k: int| 0 <= k < self@.len() ==> cloned::<T>(self@[k], #[trigger] r@[k]),
    {
        self.buffer.clone()
    }
}

/// A copy that holds a clone of every element, in the same order; for
/// element types whose clone is exact, the copy's contents equal the
/// original's.
impl<Id: RawIndex, T: Clone> Clone for Arena<Id, T> {
    fn clone(&self) -> (r: Self)
        ensures
            r@.len() == self@.len(),
            forall|k: int| 0 <= k < self@.len() ==> cloned::<T>(self@[k], #[trigger] r@[k]),
    {
        Arena { buffer: self.buffer.clone(), phantom: PhantomData }
    }
}

/// A fresh arena sized for [`DEFAULT_ARENA_CAPACITY`] elements: a
/// convenience default, not a semantic guarantee.
impl<Id: RawIndex, T> Default for Arena<Id, T> {
    fn default() -> (r: Self)
        ensures
            r@ == Seq::<T>::empty(),
    {
        Arena::with_capacity(DEFAULT_ARENA_CAPACITY)
    }
}

/// For an element type whose clone is exact — shown here for `u64` — an
/// element-wise copy such as [`to_vec`](Arena::to_vec) produces equals the
/// contents it was taken from. With [`Arena::from_elements`], which stores
/// a sequence verbatim, an arena rebuilt from such a copy is element-wise
/// identical to the original: the encode–decode round trip loses nothing.
pub proof fn lemma_exact_copy_round_trips(contents: Seq<u64>, copy: Seq<u64>)
    requires
        copy.len() == contents.len(),
        forall|k: int| 0 <= k < contents.len() ==> cloned::<u64>(contents[k], #[trigger] copy[k]),
    ensures
        copy == contents,
{
    assert(copy =~= contents);
}

/// An arena holds no elements exactly when its length is zero: emptiness
/// and a zero length are the same state.
pub proof fn lemma_empty_iff_len_zero<Id, T>(a: &Arena<Id, T>)
    ensures
        (a@.len() == 0) <==> (a@ == Seq::<T>::empty()),
{
    if a@.len() == 0 {
        assert(a@ =~= Seq::<T>::empty());
    }
}

} // verus!
