//! Cells for storage that starts out uninitialized.
//!
//! Each slot of a cell is modeled as a tagged value: `None` stands for
//! storage that holds no valid value yet, `Some(v)` for storage that holds
//! the value `v`. Creation leaves every slot empty; a slot becomes valid only
//! through an explicit write. The cells never read a slot on their own and
//! never run any cleanup: moving a value out before the storage is reused is
//! the caller's responsibility.

use vstd::prelude::*;

verus! {

/// A cell holding a single slot of possibly-uninitialized storage for a `T`.
///
/// The cell performs no lifecycle tracking beyond the validity tag itself:
/// it is created empty, a write makes it valid, and taking the value out
/// empties it again.
pub struct GroundedCell<T> {
    slot: Option<T>,
}

impl<T> View for GroundedCell<T> {
    type V = Option<T>;

    closed spec fn view(&self) -> Option<T> {
        self.slot
    }
}

impl<T> GroundedCell<T> {
    /// Create an uninitialized `GroundedCell`: its storage holds no value.
    pub fn uninit() -> (cell: Self)
        ensures
            cell@ is None,
    {
        GroundedCell { slot: None }
    }

    /// Obtain a reference to the storage slot itself.
    ///
    /// No claim is made that a valid `T` is present: the slot is handed out
    /// as it is, empty or full.
    pub fn get(&self) -> (r: &Option<T>)
        ensures
            *r == self@,
    {
        &self.slot
    }

    /// Write a value into the storage, making it valid. Returns whatever the
    /// slot held before, so that a caller replacing a resource-owning value
    /// can dispose of the old one.
    pub fn write(&mut self, value: T) -> (prev: Option<T>)
        ensures
            final(self)@ == Some(value),
            prev == old(self)@,
    {
        let prev = self.slot.take();
        self.slot = Some(value);
        prev
    }

    /// Move the value (if any) out of the storage, leaving the cell
    /// uninitialized again. This is how a caller disposes of a valid value
    /// before the storage is reused.
    pub fn take(&mut self) -> (r: Option<T>)
        ensures
            final(self)@ is None,
            r == old(self)@,
    {
        self.slot.take()
    }
}

/// An index-scoped handle to a contiguous range of an array cell's storage.
///
/// A span plays the role a raw pointer into the block would play: it names
/// storage without asserting anything about the validity of its contents.
/// Whether access through a span is shared or exclusive is decided at the
/// access itself, by whether the cell is borrowed shared or mutably there.
#[derive(Clone, Copy)]
pub struct Span {
    /// Index of the first slot the span covers.
    pub offset: usize,
    /// Number of slots the span covers.
    pub len: usize,
}

impl Span {
    /// The span lies within a storage block of `n` slots.
    pub open spec fn in_bounds(&self, n: int) -> bool {
        self.offset + self.len <= n
    }
}

/// All slots of `v` in `[lo, hi)` hold a valid value.
pub open spec fn initialized_range<T>(v: Seq<Option<T>>, lo: int, hi: int) -> bool {
    forall|i: int| lo <= i < hi ==> v[i] is Some
}

/// The slots of `v` that a span denotes, as a sequence of their own.
pub open spec fn span_view<T>(v: Seq<Option<T>>, s: Span) -> Seq<Option<T>> {
    v.subrange(s.offset as int, s.offset + s.len)
}

/// A cell holding a fixed-size block of `N` slots of possibly-uninitialized
/// storage for `T` values.
///
/// Different index ranges of the block may be valid or invalid at different
/// times; every accessor states exactly which slots it needs to be valid, so
/// that disjoint sub-ranges can be handed to different owners.
pub struct GroundedArrayCell<T, const N: usize> {
    slots: Vec<Option<T>>,
}

impl<T, const N: usize> View for GroundedArrayCell<T, N> {
    type V = Seq<Option<T>>;

    closed spec fn view(&self) -> Seq<Option<T>> {
        self.slots@
    }
}

impl<T, const N: usize> GroundedArrayCell<T, N> {
    /// The storage block has exactly the declared capacity.
    pub open spec fn wf(&self) -> bool {
        self@.len() == N
    }

    /// Create an uninitialized `GroundedArrayCell`: all `N` slots hold no
    /// value.
    pub fn uninit() -> (cell: Self)
        ensures
            cell.wf(),
            forall|i: int| 0 <= i < N ==> cell@[i] is None,
    {
        let mut slots: Vec<Option<T>> = Vec::new();
        while slots.len() < N
            invariant
                slots@.len() <= N,
                forall|i: int| 0 <= i < slots@.len() ==> slots@[i] is None,
            decreases N - slots@.len(),
        {
            slots.push(None);
        }
        GroundedArrayCell { slots }
    }

    /// Obtain a handle to the start of the storage block: a span covering
    /// all `N` slots. No claim is made about the validity of any slot.
    ///
    /// This is the coarse access mode: it is meant for callers that treat
    /// the whole block as one unit, such as a full initialization pass.
    pub fn as_mut_ptr(&self) -> (base: Span)
        ensures
            base.offset == 0,
            base.len == N,
    {
        Span { offset: 0, len: N }
    }

    /// Obtain the whole-block handle together with the block's length.
    pub fn get_ptr_len(&self) -> (r: (Span, usize))
        ensures
            r.0.offset == 0,
            r.0.len == N,
            r.1 == N,
    {
        (self.as_mut_ptr(), N)
    }

    /// Initialize every slot, in order from index `0` to `N - 1`, with
    /// copies of the given value.
    pub fn initialize_all_copied(&mut self, val: T) where T: Copy
        requires
            old(self).wf(),
        ensures
            final(self).wf(),
            forall|i: int| 0 <= i < N ==> final(self)@[i] == Some(val),
    {
        let mut i: usize = 0;
        while i < N
            invariant
                self.wf(),
                i <= N,
                forall|j: int| 0 <= j < i ==> self@[j] == Some(val),
            decreases N - i,
        {
            let slot = &mut self.slots[i];
            *slot = Some(val);
            i = i + 1;
        }
    }

    /// Initialize every slot, in order from index `0` to `N - 1`, with the
    /// value the given producer yields for that index.
    pub fn initialize_all_with<F: Fn(usize) -> T>(&mut self, f: F)
        requires
            old(self).wf(),
            forall|i: usize| i < N ==> call_requires(f, (i,)),
        ensures
            final(self).wf(),
            forall|i: int|
                0 <= i < N ==> final(self)@[i] is Some && call_ensures(
                    f,
                    (i as usize,),
                    final(self)@[i]->Some_0,
                ),
    {
        let mut i: usize = 0;
        while i < N
            invariant
                self.wf(),
                i <= N,
                forall|j: usize| j < N ==> call_requires(f, (j,)),
                forall|j: int|
                    0 <= j < i ==> self@[j] is Some && call_ensures(
                        f,
                        (j as usize,),
                        self@[j]->Some_0,
                    ),
            decreases N - i,
        {
            let value = f(i);
            let slot = &mut self.slots[i];
            *slot = Some(value);
            i = i + 1;
        }
    }

    /// Obtain a reference to a single element, without touching any other
    /// slot of the block. The selected slot must hold a valid value.
    pub fn get_element_unchecked(&self, offset: usize) -> (r: &T)
        requires
            self.wf(),
            offset < N,
            self@[offset as int] is Some,
        ensures
            *r == self@[offset as int]->Some_0,
    {
        match &self.slots[offset] {
            Some(r) => r,
            None => vstd::pervasive::unreached(),
        }
    }

    /// Obtain a mutable reference to a single element, without touching any
    /// other slot of the block. The selected slot must hold a valid value;
    /// every other slot is left exactly as it was.
    pub fn get_element_mut_unchecked(&mut self, offset: usize) -> (r: &mut T)
        requires
            old(self).wf(),
            offset < N,
            old(self)@[offset as int] is Some,
        ensures
            *r == old(self)@[offset as int]->Some_0,
            final(self)@ == old(self)@.update(offset as int, Some(*final(r))),
    {
        match &mut self.slots[offset] {
            Some(r) => r,
            None => vstd::pervasive::unreached(),
        }
    }

    /// Obtain a span over the contiguous range `[offset, offset + len)`,
    /// meant for shared reads through [`Self::span_element`]. Every slot in
    /// the range must already hold a valid value.
    pub fn get_subslice_unchecked(&self, offset: usize, len: usize) -> (s: Span)
        requires
            self.wf(),
            offset + len <= N,
            initialized_range(self@, offset as int, offset + len),
        ensures
            s.offset == offset,
            s.len == len,
    {
        Span { offset, len }
    }

    /// Obtain a span over the contiguous range `[offset, offset + len)`,
    /// meant for exclusive access through [`Self::span_write`] and
    /// [`Self::get_element_mut_unchecked`]. Every slot in the range must
    /// already hold a valid value.
    pub fn get_subslice_mut_unchecked(&mut self, offset: usize, len: usize) -> (s: Span)
        requires
            old(self).wf(),
            offset + len <= N,
            initialized_range(old(self)@, offset as int, offset + len),
        ensures
            final(self)@ == old(self)@,
            s.offset == offset,
            s.len == len,
    {
        Span { offset, len }
    }

    /// Read element `k` of the range a span denotes. The selected slot must
    /// hold a valid value.
    pub fn span_element(&self, s: Span, k: usize) -> (r: &T)
        requires
            self.wf(),
            s.in_bounds(N as int),
            k < s.len,
            self@[s.offset + k] is Some,
        ensures
            *r == span_view(self@, s)[k as int]->Some_0,
    {
        self.get_element_unchecked(s.offset + k)
    }

    /// Write a value into element `k` of the range a span denotes, making
    /// that slot valid. The slot's prior contents need not be valid; every
    /// other slot is left exactly as it was.
    pub fn span_write(&mut self, s: Span, k: usize, value: T)
        requires
            old(self).wf(),
            s.in_bounds(N as int),
            k < s.len,
        ensures
            final(self).wf(),
            final(self)@ == old(self)@.update(s.offset + k as int, Some(value)),
    {
        let slot = &mut self.slots[s.offset + k];
        *slot = Some(value);
    }
}

/// Writing a value into slot `i` of a storage block and then reading slot
/// `i` back yields exactly that value.
pub proof fn lemma_write_then_read_back<T>(v: Seq<Option<T>>, i: int, value: T)
    requires
        0 <= i < v.len(),
    ensures
        v.update(i, Some(value))[i] == Some(value),
{
}

/// Element `k` of the storage a span denotes is the very slot `offset + k`
/// of the whole block: access through a span and direct element access name
/// the same storage.
pub proof fn lemma_span_aliases_cell<T>(v: Seq<Option<T>>, s: Span, k: int)
    requires
        s.in_bounds(v.len() as int),
        0 <= k < s.len,
    ensures
        span_view(v, s)[k] == v[s.offset + k],
{
}

} // verus!
