//! The storage shared by all buffer variants: owned bytes under a capacity.

use crate::error::BufferError;
use crate::growth::{grow_capacity, grown_capacity, lemma_grown_capacity_bounds};
use vstd::prelude::*;

verus! {

/// What a byte store holds, as mathematics: the bytes written so far, in
/// order, and the number of bytes it may hold.
pub struct StoreModel {
    pub capacity: nat,
    pub bytes: Seq<u8>,
}

impl StoreModel {
    /// The bytes held never exceed the capacity.
    pub open spec fn wf(self) -> bool {
        self.bytes.len() <= self.capacity
    }

    /// A store of the given capacity that holds nothing yet.
    pub open spec fn empty(capacity: nat) -> StoreModel {
        StoreModel { capacity, bytes: Seq::empty() }
    }

    /// The number of bytes that can still be written before the capacity is reached.
    pub open spec fn available(self) -> nat {
        if self.bytes.len() <= self.capacity {
            (self.capacity - self.bytes.len()) as nat
        } else {
            0
        }
    }

    /// Whether `chunk` can be written without exceeding the capacity.
    pub open spec fn fits(self, chunk: Seq<u8>) -> bool {
        self.bytes.len() + chunk.len() <= self.capacity
    }

    /// The store after an append under a fixed capacity: `chunk` follows the
    /// bytes already held if it fits, and nothing changes if it does not.
    pub open spec fn append(self, chunk: Seq<u8>) -> StoreModel {
        if self.fits(chunk) {
            StoreModel { capacity: self.capacity, bytes: self.bytes + chunk }
        } else {
            self
        }
    }

    /// What an append under a fixed capacity reports: success if `chunk`
    /// fits, and otherwise the size of `chunk` together with the room left.
    pub open spec fn append_result(self, chunk: Seq<u8>) -> Result<(), BufferError> {
        if self.fits(chunk) {
            Ok(())
        } else {
            Err(
                BufferError::CapacityExceeded {
                    requested: chunk.len() as usize,
                    available: self.available() as usize,
                },
            )
        }
    }

    /// The store after an append that grows on demand: `chunk` follows the
    /// bytes already held, and the capacity is raised by the growth policy
    /// when it would not suffice.
    pub open spec fn grow_append(self, chunk: Seq<u8>) -> StoreModel {
        StoreModel {
            capacity: grown_capacity(self.capacity, self.bytes.len() + chunk.len()),
            bytes: self.bytes + chunk,
        }
    }
}

/// Whether memory of `capacity` bytes can be asked of the allocator at all:
/// no single allocation is larger than `isize::MAX` bytes.
pub open spec fn grantable(capacity: nat) -> bool {
    capacity <= isize::MAX
}

/// An owned, contiguous sequence of bytes together with the capacity that
/// bounds it.
///
/// The capacity is the store's own bookkeeping; the memory behind it is
/// reserved ahead of time where the allocator grants it.
#[derive(Debug)]
pub struct ByteStore {
    bytes: Vec<u8>,
    capacity: usize,
}

impl View for ByteStore {
    type V = StoreModel;

    closed spec fn view(&self) -> StoreModel {
        StoreModel { capacity: self.capacity as nat, bytes: self.bytes@ }
    }
}

impl ByteStore {
    #[verifier::type_invariant]
    spec fn within_capacity(self) -> bool {
        self.bytes@.len() <= self.capacity
    }

    /// Creates an empty store of the given capacity. Memory for it is
    /// reserved if the allocator grants it and acquired on demand otherwise.
    pub fn with_capacity(capacity: usize) -> (store: ByteStore)
        ensures
            store@ == StoreModel::empty(capacity as nat),
    {
        let mut bytes: Vec<u8> = Vec::new();
        let _ = bytes.try_reserve(capacity);
        ByteStore { bytes, capacity }
    }

    /// Creates an empty store whose memory is reserved in full, or returns `None`
    /// if the allocator refuses; capacity zero needs no memory and is never refused.
    pub fn try_with_capacity(capacity: usize) -> (acquired: Option<ByteStore>)
        ensures
            acquired matches Some(store) ==> store@ == StoreModel::empty(capacity as nat),
            capacity == 0 ==> acquired is Some,
            !grantable(capacity as nat) ==> acquired is None,
    {
        let mut bytes: Vec<u8> = Vec::new();
        if capacity == 0 {
            return Some(ByteStore { bytes, capacity });
        }
        if capacity > isize::MAX as usize {
            return None;
        }
        match bytes.try_reserve(capacity) {
            Ok(_) => Some(ByteStore { bytes, capacity }),
            Err(_) => None,
        }
    }

    /// The number of bytes held.
    pub fn len(&self) -> (n: usize)
        ensures
            n == self@.bytes.len(),
            n <= self@.capacity,
    {
        proof {
            use_type_invariant(self);
        }
        self.bytes.len()
    }

    /// The number of bytes the store may hold.
    pub fn capacity(&self) -> (n: usize)
        ensures
            n == self@.capacity,
            self@.wf(),
    {
        proof {
            use_type_invariant(self);
        }
        self.capacity
    }

    /// The number of bytes that can still be written before the capacity is reached.
    pub fn available(&self) -> (n: usize)
        ensures
            n == self@.available(),
            n + self@.bytes.len() == self@.capacity,
    {
        proof {
            use_type_invariant(self);
        }
        self.capacity - self.bytes.len()
    }

    /// Whether the store holds no bytes.
    pub fn is_empty(&self) -> (empty: bool)
        ensures
            empty == (self@.bytes.len() == 0),
    {
        self.bytes.len() == 0
    }

    /// The bytes held, in the order in which they were written.
    pub fn as_slice(&self) -> (bytes: &[u8])
        ensures
            bytes@ == self@.bytes,
            bytes@.len() <= self@.capacity,
    {
        proof {
            use_type_invariant(self);
        }
        self.bytes.as_slice()
    }

    /// Writes `chunk` after the bytes already held if it fits within the
    /// capacity. If it does not, nothing is written and the error tells how
    /// many bytes were requested and how many were available.
    pub fn append(&mut self, chunk: &[u8]) -> (result: Result<(), BufferError>)
        ensures
            result == old(self)@.append_result(chunk@),
            final(self)@ == old(self)@.append(chunk@),
            final(self)@.wf(),
    {
        proof {
            use_type_invariant(&*self);
        }
        let available: usize = self.capacity - self.bytes.len();
        if chunk.len() > available {
            return Err(BufferError::CapacityExceeded { requested: chunk.len(), available });
        }
        let mut bytes: Vec<u8> = self.take_bytes();
        bytes.extend_from_slice(chunk);
        assert(bytes@ == old(self)@.bytes + chunk@);
        self.bytes = bytes;
        Ok(())
    }

    /// Writes `chunk` after the bytes already held, raising the capacity by
    /// the growth policy if it would not suffice.
    pub fn append_growing(&mut self, chunk: &[u8])
        ensures
            final(self)@ == old(self)@.grow_append(chunk@),
            final(self)@.wf(),
    {
        let mut bytes: Vec<u8> = self.take_bytes();
        bytes.extend_from_slice(chunk);
        assert(bytes@ == old(self)@.bytes + chunk@);
        let needed: usize = bytes.len();
        let grown: usize = grow_capacity(self.capacity, needed);
        proof {
            lemma_grown_capacity_bounds(self.capacity as nat, needed as nat);
        }
        if grown > self.capacity {
            let _ = bytes.try_reserve(grown - needed);
            self.capacity = grown;
        }
        self.bytes = bytes;
    }

    /// Takes the bytes out of the store and leaves it empty, so that they
    /// can be extended while the store stays within its capacity.
    fn take_bytes(&mut self) -> (bytes: Vec<u8>)
        ensures
            bytes@ == old(self)@.bytes,
            bytes@.len() <= old(self)@.capacity,
            final(self)@ == StoreModel::empty(old(self)@.capacity),
    {
        proof {
            use_type_invariant(&*self);
        }
        let mut bytes: Vec<u8> = Vec::new();
        std::mem::swap(&mut bytes, &mut self.bytes);
        bytes
    }
}

} // verus!
