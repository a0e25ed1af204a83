//! The buffer that grows on demand.

use crate::growth::lemma_grown_capacity_bounds;
use crate::store::{ByteStore, StoreModel};
use vstd::prelude::*;

verus! {

/// An append-only byte buffer whose capacity grows whenever an append would
/// not fit, so that an append always succeeds.
#[derive(Debug)]
pub struct BufferR {
    store: ByteStore,
}

/// The growable buffer under its descriptive name.
pub type GrowableBuffer = BufferR;

impl View for BufferR {
    type V = StoreModel;

    closed spec fn view(&self) -> StoreModel {
        self.store@
    }
}

impl BufferR {
    /// Creates an empty buffer with the given initial capacity, which may be zero.
    pub fn new(initial_capacity: usize) -> (buffer: BufferR)
        ensures
            buffer@ == StoreModel::empty(initial_capacity as nat),
    {
        BufferR { store: ByteStore::with_capacity(initial_capacity) }
    }

    /// Appends `input_data` after the bytes already held. Where the capacity
    /// would not suffice it is first raised by the growth policy.
    pub fn append(&mut self, input_data: &[u8])
        ensures
            final(self)@ == old(self)@.grow_append(input_data@),
            final(self)@.wf(),
    {
        self.store.append_growing(input_data)
    }

    /// The bytes appended so far, in order.
    pub fn get_data(&self) -> (bytes: &[u8])
        ensures
            bytes@ == self@.bytes,
            bytes@.len() <= self@.capacity,
    {
        self.store.as_slice()
    }

    /// The number of bytes appended so far.
    pub fn get_size(&self) -> (n: usize)
        ensures
            n == self@.bytes.len(),
            n <= self@.capacity,
    {
        self.store.len()
    }

    /// Whether nothing has been appended yet.
    pub fn is_empty(&self) -> (empty: bool)
        ensures
            empty == (self@.bytes.len() == 0),
    {
        self.store.is_empty()
    }

    /// The current capacity.
    pub fn capacity(&self) -> (n: usize)
        ensures
            n == self@.capacity,
            self@.wf(),
    {
        self.store.capacity()
    }
}

/// The store reached from `store` by appending each of `chunks` in turn,
/// growing on demand.
pub open spec fn grow_append_all(store: StoreModel, chunks: Seq<Seq<u8>>) -> StoreModel
    decreases chunks.len(),
{
    if chunks.len() == 0 {
        store
    } else {
        grow_append_all(store, chunks.drop_last()).grow_append(chunks.last())
    }
}

/// A growing append keeps the length within the capacity, never lowers the
/// capacity, and raises it only when the bytes would not fit otherwise.
pub proof fn lemma_grow_append_preserves(store: StoreModel, chunk: Seq<u8>)
    ensures
        store.grow_append(chunk).wf(),
        store.grow_append(chunk).capacity >= store.capacity,
        store.fits(chunk) ==> store.grow_append(chunk).capacity == store.capacity,
        store.grow_append(chunk).bytes == store.bytes + chunk,
{
    lemma_grown_capacity_bounds(store.capacity, store.bytes.len() + chunk.len());
}

/// Where the bytes fit, a growing append and an append under a fixed
/// capacity do the same.
pub proof fn lemma_grow_append_within_capacity(store: StoreModel, chunk: Seq<u8>)
    requires
        store.fits(chunk),
    ensures
        store.grow_append(chunk) == store.append(chunk),
{
}

/// After any sequence of growing appends the buffer holds what it held
/// before, followed by the chunks in the order in which they were appended.
pub proof fn lemma_grow_append_all_concatenates(store: StoreModel, chunks: Seq<Seq<u8>>)
    ensures
        grow_append_all(store, chunks).bytes == store.bytes + chunks.flatten(),
        store.wf() ==> grow_append_all(store, chunks).wf(),
        grow_append_all(store, chunks).capacity >= store.capacity,
    decreases chunks.len(),
{
    if chunks.len() > 0 {
        let front = chunks.drop_last();
        lemma_grow_append_all_concatenates(store, front);
        lemma_grow_append_preserves(grow_append_all(store, front), chunks.last());
        assert(chunks =~= front.push(chunks.last()));
        front.lemma_flatten_push(chunks.last());
    }
}

/// Starting from an empty buffer of any initial capacity, every sequence of
/// appends leaves exactly the concatenation of the chunks, in order.
pub proof fn lemma_fresh_grow_append_all(initial_capacity: nat, chunks: Seq<Seq<u8>>)
    ensures
        grow_append_all(StoreModel::empty(initial_capacity), chunks).bytes == chunks.flatten(),
{
    lemma_grow_append_all_concatenates(StoreModel::empty(initial_capacity), chunks);
}

} // verus!
