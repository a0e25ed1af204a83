//! The buffer of fixed capacity.

use crate::error::{outcome, BufferError};
use crate::store::{ByteStore, StoreModel};
use vstd::prelude::*;

verus! {

/// An append-only byte buffer whose capacity is fixed when it is created.
///
/// An append either writes all of its bytes or is rejected and changes
/// nothing; the buffer never holds more bytes than its capacity.
#[derive(Debug)]
pub struct BoundedBuffer {
    store: ByteStore,
}

impl View for BoundedBuffer {
    type V = StoreModel;

    closed spec fn view(&self) -> StoreModel {
        self.store@
    }
}

impl BoundedBuffer {
    /// What creating a buffer of the given capacity gives: an empty store of
    /// that capacity, or a refusal when the capacity is zero.
    pub open spec fn created(capacity: nat) -> Result<StoreModel, BufferError> {
        if capacity == 0 {
            Err(BufferError::InvalidCapacity)
        } else {
            Ok(StoreModel::empty(capacity))
        }
    }

    /// Creates an empty buffer that may hold up to `capacity` bytes.
    /// A capacity of zero is refused with `InvalidCapacity`.
    pub fn create(capacity: usize) -> (result: Result<BoundedBuffer, BufferError>)
        ensures
            outcome(result) == Self::created(capacity as nat),
    {
        if capacity == 0 {
            Err(BufferError::InvalidCapacity)
        } else {
            Ok(BoundedBuffer { store: ByteStore::with_capacity(capacity) })
        }
    }

    /// Appends `bytes` if they fit into what is left of the capacity.
    ///
    /// If they do not, the buffer is left as it was and the error is
    /// `CapacityExceeded`, with the number of bytes requested and the number
    /// of bytes that were still available.
    pub fn append(&mut self, bytes: &[u8]) -> (result: Result<(), BufferError>)
        ensures
            result == old(self)@.append_result(bytes@),
            final(self)@ == old(self)@.append(bytes@),
            final(self)@.wf(),
    {
        self.store.append(bytes)
    }

    /// The bytes appended so far, in order.
    pub fn contents(&self) -> (bytes: &[u8])
        ensures
            bytes@ == self@.bytes,
            bytes@.len() <= self@.capacity,
    {
        self.store.as_slice()
    }

    /// The number of bytes appended so far.
    pub fn length(&self) -> (n: usize)
        ensures
            n == self@.bytes.len(),
            n <= self@.capacity,
    {
        self.store.len()
    }

    /// Whether nothing has been appended yet.
    pub fn is_empty(&self) -> (empty: bool)
        ensures
            empty == (self@.bytes.len() == 0),
    {
        self.store.is_empty()
    }

    /// The capacity that the buffer was created with.
    pub fn capacity(&self) -> (n: usize)
        ensures
            n == self@.capacity,
            self@.wf(),
    {
        self.store.capacity()
    }

    /// The number of bytes that can still be appended.
    pub fn available(&self) -> (n: usize)
        ensures
            n == self@.available(),
            n + self@.bytes.len() == self@.capacity,
    {
        self.store.available()
    }
}

/// A fresh buffer accepts any chunk that is no longer than its capacity, and
/// then holds exactly that chunk.
pub proof fn lemma_fresh_buffer_accepts(capacity: nat, chunk: Seq<u8>)
    requires
        capacity > 0,
        chunk.len() <= capacity,
    ensures
        BoundedBuffer::created(capacity) matches Ok(fresh) && {
            &&& fresh.append_result(chunk) is Ok
            &&& fresh.append(chunk).bytes == chunk
        },
{
}

/// A fresh buffer rejects any chunk that is longer than its capacity: the
/// error carries the length of the chunk and the whole capacity, and the
/// buffer stays empty.
pub proof fn lemma_fresh_buffer_rejects(capacity: nat, chunk: Seq<u8>)
    requires
        0 < capacity <= usize::MAX,
        capacity < chunk.len() <= usize::MAX,
    ensures
        BoundedBuffer::created(capacity) matches Ok(fresh) && {
            &&& fresh.append_result(chunk) matches Err(
                BufferError::CapacityExceeded { requested, available },
            ) && requested == chunk.len() && available == capacity
            &&& fresh.append(chunk).bytes.len() == 0
            &&& fresh.append(chunk) == fresh
        },
{
}

/// An append under a fixed capacity succeeds exactly when the chunk fits. It
/// never changes the capacity, never loses or reorders bytes already held,
/// and keeps the length within the capacity. When it is rejected the store
/// is unchanged.
pub proof fn lemma_bounded_append_preserves(store: StoreModel, chunk: Seq<u8>)
    requires
        store.wf(),
    ensures
        store.append(chunk).wf(),
        store.append(chunk).capacity == store.capacity,
        store.bytes.is_prefix_of(store.append(chunk).bytes),
        store.append_result(chunk) is Ok <==> store.fits(chunk),
        store.append_result(chunk) is Ok ==> store.append(chunk).bytes == store.bytes + chunk,
        store.append_result(chunk) is Err ==> store.append(chunk) == store,
{
}

} // verus!
