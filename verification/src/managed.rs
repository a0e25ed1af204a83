//! The buffer with an explicit allocate / release lifecycle.

use crate::error::{outcome, BufferError};
use crate::growth::{grow_capacity, grown_capacity, lemma_grown_capacity_bounds};
use crate::store::{grantable, ByteStore, StoreModel};
use vstd::prelude::*;

verus! {

/// Whether the storage of a managed buffer is valid.
#[derive(Clone, Copy, Debug, PartialEq, Eq, Structural)]
pub enum Lifecycle {
    /// The storage is valid and operations on it are permitted.
    Allocated,
    /// The storage was released; every operation that would touch it fails.
    Released,
}

/// What a managed buffer is, as mathematics: either allocated storage with
/// what it holds, or released.
pub enum ManagedModel {
    Allocated { store: StoreModel },
    Released,
}

impl ManagedModel {
    /// The lifecycle state.
    pub open spec fn lifecycle(self) -> Lifecycle {
        match self {
            ManagedModel::Allocated { .. } => Lifecycle::Allocated,
            ManagedModel::Released => Lifecycle::Released,
        }
    }

    /// The buffer made from what the allocator handed out: storage of
    /// positive capacity becomes an allocated buffer, storage of capacity
    /// zero is refused, and no storage at all is an allocation failure.
    pub open spec fn adopt(storage: Option<StoreModel>) -> Result<ManagedModel, BufferError> {
        match storage {
            None => Err(BufferError::AllocationFailed),
            Some(store) => if store.capacity == 0 {
                Err(BufferError::InvalidCapacity)
            } else {
                Ok(ManagedModel::Allocated { store })
            },
        }
    }

    /// The outcome of allocating a buffer of the given capacity, where
    /// `granted` tells whether the allocator granted the storage. Storage
    /// that cannot be asked for at all is never granted.
    pub open spec fn allocate(capacity: nat, granted: bool) -> Result<ManagedModel, BufferError> {
        if capacity == 0 {
            Err(BufferError::InvalidCapacity)
        } else if granted && grantable(capacity) {
            Self::adopt(Some(StoreModel::empty(capacity)))
        } else {
            Self::adopt(None)
        }
    }

    /// Whether `chunk` can be appended in the storage held, without asking
    /// for more.
    pub open spec fn fits(self, chunk: Seq<u8>) -> bool {
        self matches ManagedModel::Allocated { store } && store.fits(chunk)
    }

    /// The capacity that the growth policy assigns to the buffer when
    /// `chunk` is to be appended.
    pub open spec fn grown_for(self, chunk: Seq<u8>) -> nat {
        match self {
            ManagedModel::Allocated { store } => {
                grown_capacity(store.capacity, store.bytes.len() + chunk.len())
            },
            ManagedModel::Released => 0,
        }
    }

    /// What an append reports, where `granted` tells whether the allocator
    /// granted larger storage: `UseAfterRelease` on a released buffer;
    /// success where the chunk fits or storage of the grown capacity was
    /// granted; and `AllocationFailed` otherwise. Storage that cannot be
    /// asked for at all is never granted.
    pub open spec fn append_result(
        self,
        chunk: Seq<u8>,
        granted: bool,
    ) -> Result<(), BufferError> {
        match self {
            ManagedModel::Released => Err(BufferError::UseAfterRelease),
            ManagedModel::Allocated { store } => {
                if store.fits(chunk) || (granted && grantable(self.grown_for(chunk))) {
                    Ok(())
                } else {
                    Err(BufferError::AllocationFailed)
                }
            },
        }
    }

    /// The buffer after an append: where it succeeds the chunk follows the
    /// bytes already held and the capacity is what the growth policy
    /// assigns; in every other case nothing changes.
    pub open spec fn append(self, chunk: Seq<u8>, granted: bool) -> ManagedModel {
        match self {
            ManagedModel::Allocated { store } => {
                if self.append_result(chunk, granted) is Ok {
                    ManagedModel::Allocated { store: store.grow_append(chunk) }
                } else {
                    self
                }
            },
            ManagedModel::Released => self,
        }
    }

    /// Whether an append of `chunk` that the allocator answered with
    /// `granted` turns this buffer into `after` and reports `result`.
    pub open spec fn appended(
        self,
        chunk: Seq<u8>,
        granted: bool,
        after: ManagedModel,
        result: Result<(), BufferError>,
    ) -> bool {
        &&& result == self.append_result(chunk, granted)
        &&& after == self.append(chunk, granted)
    }

    /// What an append reports when `larger` is the storage that the
    /// allocator handed out for it, if any. A chunk that fits needs no
    /// storage. Otherwise the bytes held and then the chunk have to fit into
    /// `larger`, behind what it holds already.
    pub open spec fn append_into_result(
        self,
        chunk: Seq<u8>,
        larger: Option<StoreModel>,
    ) -> Result<(), BufferError> {
        match self {
            ManagedModel::Released => Err(BufferError::UseAfterRelease),
            ManagedModel::Allocated { store } => {
                if store.fits(chunk) {
                    Ok(())
                } else if self.reallocate_into_result(larger) is Err {
                    self.reallocate_into_result(larger)
                } else {
                    larger->Some_0.append(store.bytes).append_result(chunk)
                }
            },
        }
    }

    /// The buffer after an append when `larger` is the storage that the
    /// allocator handed out for it, if any: a chunk that fits is written
    /// where the buffer is; otherwise, where the append succeeds, the bytes
    /// held and then the chunk are written into `larger`, which becomes the
    /// storage of the buffer. In every other case nothing changes.
    pub open spec fn append_into(self, chunk: Seq<u8>, larger: Option<StoreModel>) -> ManagedModel {
        match self {
            ManagedModel::Released => self,
            ManagedModel::Allocated { store } => {
                if store.fits(chunk) {
                    ManagedModel::Allocated { store: store.append(chunk) }
                } else if self.append_into_result(chunk, larger) is Ok {
                    ManagedModel::Allocated {
                        store: larger->Some_0.append(store.bytes).append(chunk),
                    }
                } else {
                    self
                }
            },
        }
    }

    /// The buffer after a release: released, whatever it was before.
    pub open spec fn release(self) -> ManagedModel {
        ManagedModel::Released
    }

    /// What a release reports: success on an allocated buffer and
    /// `DoubleRelease` on a released one.
    pub open spec fn release_result(self) -> Result<(), BufferError> {
        match self {
            ManagedModel::Allocated { .. } => Ok(()),
            ManagedModel::Released => Err(BufferError::DoubleRelease),
        }
    }

    /// What reading the contents gives: the bytes held by allocated storage,
    /// and `UseAfterRelease` on a released buffer.
    pub open spec fn contents(self) -> Result<Seq<u8>, BufferError> {
        match self {
            ManagedModel::Allocated { store } => Ok(store.bytes),
            ManagedModel::Released => Err(BufferError::UseAfterRelease),
        }
    }

    /// Whether the storage, while there is any, holds no more bytes than its
    /// capacity.
    pub open spec fn wf(self) -> bool {
        self matches ManagedModel::Allocated { store } ==> store.wf()
    }

    /// What asking for the length gives.
    pub open spec fn length(self) -> Result<nat, BufferError> {
        match self {
            ManagedModel::Allocated { store } => Ok(store.bytes.len()),
            ManagedModel::Released => Err(BufferError::UseAfterRelease),
        }
    }

    /// What asking for the capacity gives.
    pub open spec fn capacity(self) -> Result<nat, BufferError> {
        match self {
            ManagedModel::Allocated { store } => Ok(store.capacity),
            ManagedModel::Released => Err(BufferError::UseAfterRelease),
        }
    }

    /// What moving the buffer into `target` reports, where `target` is the
    /// storage that the allocator handed out, if any.
    pub open spec fn reallocate_into_result(
        self,
        target: Option<StoreModel>,
    ) -> Result<(), BufferError> {
        match self {
            ManagedModel::Released => Err(BufferError::UseAfterRelease),
            ManagedModel::Allocated { store } => match target {
                None => Err(BufferError::AllocationFailed),
                Some(fresh) => if fresh.capacity == 0 {
                    Err(BufferError::InvalidCapacity)
                } else {
                    fresh.append_result(store.bytes)
                },
            },
        }
    }

    /// The buffer after moving it into `target`: where the move succeeds the
    /// bytes held follow what `target` held, under the capacity of `target`;
    /// in every other case nothing changes.
    pub open spec fn reallocate_into(self, target: Option<StoreModel>) -> ManagedModel {
        match (self, target) {
            (ManagedModel::Allocated { store }, Some(fresh)) => {
                if self.reallocate_into_result(target) is Ok {
                    ManagedModel::Allocated { store: fresh.append(store.bytes) }
                } else {
                    self
                }
            },
            _ => self,
        }
    }

    /// What a reallocation to `capacity` reports, where `granted` tells
    /// whether the allocator granted the new storage: a released buffer
    /// cannot be reallocated, the new capacity must be positive and must
    /// hold the bytes already there, and the storage must be granted.
    /// Storage that cannot be asked for at all is never granted.
    pub open spec fn reallocate_result(
        self,
        capacity: nat,
        granted: bool,
    ) -> Result<(), BufferError> {
        match self {
            ManagedModel::Released => Err(BufferError::UseAfterRelease),
            ManagedModel::Allocated { store } => if capacity == 0 {
                Err(BufferError::InvalidCapacity)
            } else if capacity < store.bytes.len() {
                Err(
                    BufferError::CapacityExceeded {
                        requested: store.bytes.len() as usize,
                        available: capacity as usize,
                    },
                )
            } else if !(granted && grantable(capacity)) {
                Err(BufferError::AllocationFailed)
            } else {
                Ok(())
            },
        }
    }

    /// The buffer after a reallocation to `capacity`: the same bytes under
    /// the new capacity where it succeeds, and no change where it does not.
    pub open spec fn reallocate(self, capacity: nat, granted: bool) -> ManagedModel {
        match self {
            ManagedModel::Allocated { store } => {
                if self.reallocate_result(capacity, granted) is Ok {
                    ManagedModel::Allocated { store: StoreModel { capacity, bytes: store.bytes } }
                } else {
                    self
                }
            },
            ManagedModel::Released => self,
        }
    }

    /// Whether a reallocation to `capacity` that the allocator answered with
    /// `granted` turns this buffer into `after` and reports `result`.
    pub open spec fn reallocated(
        self,
        capacity: nat,
        granted: bool,
        after: ManagedModel,
        result: Result<(), BufferError>,
    ) -> bool {
        &&& result == self.reallocate_result(capacity, granted)
        &&& after == self.reallocate(capacity, granted)
    }
}

#[derive(Debug)]
enum Storage {
    Allocated(ByteStore),
    Released,
}

/// An append-only byte buffer whose storage is allocated, reallocated and
/// released explicitly.
///
/// An append that does not fit moves the buffer to larger storage, sized by
/// the growth policy; if the allocator refuses that storage the append fails
/// and the buffer stays as it was.
///
/// Once released, a buffer stays released: a second release, an append or a
/// read is answered with an error and touches no storage.
#[derive(Debug)]
pub struct LowLevelBuffer {
    storage: Storage,
}

/// The managed buffer under its descriptive name.
pub type ManagedBuffer = LowLevelBuffer;

impl View for LowLevelBuffer {
    type V = ManagedModel;

    closed spec fn view(&self) -> ManagedModel {
        match self.storage {
            Storage::Allocated(store) => ManagedModel::Allocated { store: store@ },
            Storage::Released => ManagedModel::Released,
        }
    }
}

/// The model of the storage that the allocator handed out, if any.
pub open spec fn handed_out(storage: Option<ByteStore>) -> Option<StoreModel> {
    match storage {
        Some(store) => Some(store@),
        None => None,
    }
}

impl LowLevelBuffer {
    /// Allocates a buffer that may hold up to `capacity` bytes.
    ///
    /// A capacity of zero is refused with `InvalidCapacity`. For a positive
    /// capacity the result is an empty allocated buffer, or
    /// `AllocationFailed` if the allocator does not grant the storage, as it
    /// never does for more than `isize::MAX` bytes.
    pub fn new(capacity: usize) -> (result: Result<LowLevelBuffer, BufferError>)
        ensures
            outcome(result) == ManagedModel::allocate(capacity as nat, true)
                || outcome(result) == ManagedModel::allocate(capacity as nat, false),
            capacity > isize::MAX ==> result matches Err(BufferError::AllocationFailed),
    {
        if capacity == 0 {
            Err(BufferError::InvalidCapacity)
        } else {
            Self::from_storage(ByteStore::try_with_capacity(capacity))
        }
    }

    /// Makes a buffer from what the allocator handed out: `AllocationFailed`
    /// if that is nothing, `InvalidCapacity` if it is storage of capacity
    /// zero, and otherwise an allocated buffer over that storage.
    pub fn from_storage(
        storage: Option<ByteStore>,
    ) -> (result: Result<LowLevelBuffer, BufferError>)
        ensures
            outcome(result) == ManagedModel::adopt(handed_out(storage)),
            result matches Ok(buffer) ==> buffer@.wf(),
    {
        match storage {
            None => Err(BufferError::AllocationFailed),
            Some(store) => {
                if store.capacity() == 0 {
                    Err(BufferError::InvalidCapacity)
                } else {
                    Ok(LowLevelBuffer { storage: Storage::Allocated(store) })
                }
            },
        }
    }

    /// The lifecycle state of the buffer.
    pub fn state(&self) -> (state: Lifecycle)
        ensures
            state == self@.lifecycle(),
    {
        match &self.storage {
            Storage::Allocated(_) => Lifecycle::Allocated,
            Storage::Released => Lifecycle::Released,
        }
    }

    /// Appends `new_data` after the bytes already held. Where the capacity
    /// does not suffice, the buffer first moves to larger storage, whose
    /// capacity the growth policy assigns.
    ///
    /// On a released buffer the error is `UseAfterRelease`. Where larger
    /// storage is needed and the allocator does not grant it, the error is
    /// `AllocationFailed`. In both cases nothing changes.
    pub fn append(&mut self, new_data: &[u8]) -> (result: Result<(), BufferError>)
        ensures
            old(self)@.appended(new_data@, true, final(self)@, result)
                || old(self)@.appended(new_data@, false, final(self)@, result),
            final(self)@.wf(),
    {
        match &self.storage {
            Storage::Released => Err(BufferError::UseAfterRelease),
            Storage::Allocated(store) => {
                let held: usize = store.len();
                let capacity: usize = store.capacity();
                proof {
                    lemma_append_into_granted_storage(self@, new_data@);
                }
                if new_data.len() <= capacity - held {
                    self.append_into(new_data, None)
                } else if new_data.len() > usize::MAX - held {
                    Err(BufferError::AllocationFailed)
                } else {
                    let grown: usize = grow_capacity(capacity, held + new_data.len());
                    self.append_into(new_data, ByteStore::try_with_capacity(grown))
                }
            },
        }
    }

    /// Appends `new_data` when `larger` is the storage that the allocator
    /// handed out for it, if any.
    ///
    /// Bytes that fit are written where the buffer is, and `larger` is given
    /// up. Otherwise the bytes held and then `new_data` are written into
    /// `larger`, which becomes the storage of the buffer. A released buffer
    /// answers with `UseAfterRelease`, no storage with `AllocationFailed`,
    /// storage of capacity zero with `InvalidCapacity`, and storage that
    /// cannot take the bytes with `CapacityExceeded`. Nothing changes unless
    /// the result is success.
    pub fn append_into(
        &mut self,
        new_data: &[u8],
        larger: Option<ByteStore>,
    ) -> (result: Result<(), BufferError>)
        ensures
            result == old(self)@.append_into_result(new_data@, handed_out(larger)),
            final(self)@ == old(self)@.append_into(new_data@, handed_out(larger)),
            final(self)@.wf(),
    {
        match &self.storage {
            Storage::Released => Err(BufferError::UseAfterRelease),
            Storage::Allocated(store) => {
                let held: &[u8] = store.as_slice();
                if new_data.len() <= store.available() {
                    self.append_in_place(new_data)
                } else {
                    match larger {
                        None => Err(BufferError::AllocationFailed),
                        Some(mut fresh) => {
                            if fresh.capacity() == 0 {
                                Err(BufferError::InvalidCapacity)
                            } else {
                                match fresh.append(held) {
                                    Err(error) => Err(error),
                                    Ok(_) => match fresh.append(new_data) {
                                        Err(error) => Err(error),
                                        Ok(_) => {
                                            self.storage = Storage::Allocated(fresh);
                                            Ok(())
                                        },
                                    },
                                }
                            }
                        },
                    }
                }
            },
        }
    }

    /// Appends `new_data` in the storage held, if there is any and the bytes
    /// fit into it.
    fn append_in_place(&mut self, new_data: &[u8]) -> (result: Result<(), BufferError>)
        ensures
            old(self)@ matches ManagedModel::Allocated { store } ==> {
                &&& result == store.append_result(new_data@)
                &&& final(self)@ == (ManagedModel::Allocated { store: store.append(new_data@) })
            },
            old(self)@ is Released ==> result is Err && final(self)@ == old(self)@,
            final(self)@.wf(),
    {
        match &mut self.storage {
            Storage::Allocated(store) => store.append(new_data),
            Storage::Released => Err(BufferError::UseAfterRelease),
        }
    }

    /// Releases the storage. A buffer that is already released answers with
    /// `DoubleRelease` and stays as it is.
    pub fn release(&mut self) -> (result: Result<(), BufferError>)
        ensures
            result == old(self)@.release_result(),
            final(self)@ == old(self)@.release(),
    {
        match &self.storage {
            Storage::Allocated(_) => {
                self.storage = Storage::Released;
                Ok(())
            },
            Storage::Released => Err(BufferError::DoubleRelease),
        }
    }

    /// The bytes appended so far, in order, or `UseAfterRelease` if the
    /// buffer was released.
    pub fn contents(&self) -> (result: Result<&[u8], BufferError>)
        ensures
            outcome(result) == self@.contents(),
            self@.wf(),
    {
        match &self.storage {
            Storage::Allocated(store) => Ok(store.as_slice()),
            Storage::Released => Err(BufferError::UseAfterRelease),
        }
    }

    /// The number of bytes appended so far, or `UseAfterRelease` if the
    /// buffer was released.
    pub fn length(&self) -> (result: Result<usize, BufferError>)
        ensures
            result matches Ok(n) ==> self@.length() == Ok::<nat, BufferError>(n as nat),
            result matches Err(error) ==> self@.length() == Err::<nat, BufferError>(error),
            self@.wf(),
    {
        match &self.storage {
            Storage::Allocated(store) => Ok(store.len()),
            Storage::Released => Err(BufferError::UseAfterRelease),
        }
    }

    /// The capacity of the storage, or `UseAfterRelease` if the buffer was
    /// released.
    pub fn capacity(&self) -> (result: Result<usize, BufferError>)
        ensures
            result matches Ok(n) ==> self@.capacity() == Ok::<nat, BufferError>(n as nat),
            result matches Err(error) ==> self@.capacity() == Err::<nat, BufferError>(error),
            self@.wf(),
    {
        match &self.storage {
            Storage::Allocated(store) => Ok(store.capacity()),
            Storage::Released => Err(BufferError::UseAfterRelease),
        }
    }

    /// Moves the buffer to new storage of `capacity` bytes, keeping what it
    /// holds.
    ///
    /// A released buffer answers with `UseAfterRelease`, a capacity of zero
    /// with `InvalidCapacity`, and a capacity below the number of bytes held
    /// with `CapacityExceeded`, which carries that number and the capacity
    /// asked for. Otherwise the result is success, or `AllocationFailed` if
    /// the allocator does not grant the new storage, as it never does for
    /// more than `isize::MAX` bytes. Nothing changes unless the result is
    /// success.
    pub fn reallocate(&mut self, capacity: usize) -> (result: Result<(), BufferError>)
        ensures
            old(self)@.reallocated(capacity as nat, true, final(self)@, result)
                || old(self)@.reallocated(capacity as nat, false, final(self)@, result),
            capacity > isize::MAX ==> result is Err && final(self)@ == old(self)@,
            final(self)@.wf(),
    {
        match &self.storage {
            Storage::Released => Err(BufferError::UseAfterRelease),
            Storage::Allocated(store) => {
                let held: usize = store.len();
                if capacity == 0 {
                    Err(BufferError::InvalidCapacity)
                } else if capacity < held {
                    Err(BufferError::CapacityExceeded { requested: held, available: capacity })
                } else {
                    proof {
                        lemma_move_into_fresh_storage(self@, capacity as nat);
                    }
                    self.reallocate_into(ByteStore::try_with_capacity(capacity))
                }
            },
        }
    }

    /// Moves the buffer into `target`, the storage that the allocator handed
    /// out, if any; the storage held before is given up.
    ///
    /// A released buffer answers with `UseAfterRelease`, no storage with
    /// `AllocationFailed`, storage of capacity zero with `InvalidCapacity`,
    /// and storage that cannot take the bytes held with `CapacityExceeded`.
    /// Nothing changes unless the result is success.
    pub fn reallocate_into(
        &mut self,
        target: Option<ByteStore>,
    ) -> (result: Result<(), BufferError>)
        ensures
            result == old(self)@.reallocate_into_result(handed_out(target)),
            final(self)@ == old(self)@.reallocate_into(handed_out(target)),
            final(self)@.wf(),
    {
        match &self.storage {
            Storage::Released => Err(BufferError::UseAfterRelease),
            Storage::Allocated(store) => {
                let held: &[u8] = store.as_slice();
                match target {
                    None => Err(BufferError::AllocationFailed),
                    Some(mut fresh) => {
                        if fresh.capacity() == 0 {
                            Err(BufferError::InvalidCapacity)
                        } else {
                            match fresh.append(held) {
                                Ok(_) => {
                                    self.storage = Storage::Allocated(fresh);
                                    Ok(())
                                },
                                Err(error) => Err(error),
                            }
                        }
                    },
                }
            },
        }
    }
}

/// Moving an allocated buffer into fresh storage that was granted is the
/// same as reallocating it, and being handed no storage is the same as a
/// reallocation that was not granted, whenever the new capacity is positive
/// and holds the bytes already there.
pub proof fn lemma_move_into_fresh_storage(buffer: ManagedModel, capacity: nat)
    requires
        buffer matches ManagedModel::Allocated { store } && store.bytes.len() <= capacity,
        capacity > 0,
    ensures
        grantable(capacity) ==> buffer.reallocated(
            capacity,
            true,
            buffer.reallocate_into(Some(StoreModel::empty(capacity))),
            buffer.reallocate_into_result(Some(StoreModel::empty(capacity))),
        ),
        buffer.reallocated(
            capacity,
            false,
            buffer.reallocate_into(None),
            buffer.reallocate_into_result(None),
        ),
{
}

/// An append that is handed fresh storage of the grown capacity is the
/// append that was granted, and one that is handed no storage is the append
/// that was not. A chunk that fits is appended either way.
pub proof fn lemma_append_into_granted_storage(buffer: ManagedModel, chunk: Seq<u8>)
    requires
        buffer.lifecycle() == Lifecycle::Allocated,
        buffer.wf(),
    ensures
        grantable(buffer.grown_for(chunk)) ==> buffer.appended(
            chunk,
            true,
            buffer.append_into(chunk, Some(StoreModel::empty(buffer.grown_for(chunk)))),
            buffer.append_into_result(chunk, Some(StoreModel::empty(buffer.grown_for(chunk)))),
        ),
        buffer.appended(
            chunk,
            false,
            buffer.append_into(chunk, None),
            buffer.append_into_result(chunk, None),
        ),
        buffer.fits(chunk) ==> buffer.append_result(chunk, false) is Ok,
{
    let store = buffer->store;
    lemma_grown_capacity_bounds(store.capacity, store.bytes.len() + chunk.len());
}

/// An append to an allocated buffer succeeds exactly where the chunk fits
/// or larger storage that can be asked for was granted. The buffer then
/// holds the bytes, under the capacity, that a growable buffer has after the
/// same append. Where it fails, the error is `AllocationFailed` and nothing
/// changes.
pub proof fn lemma_append_grows_as_the_growable_buffer(
    buffer: ManagedModel,
    chunk: Seq<u8>,
    granted: bool,
)
    requires
        buffer.lifecycle() == Lifecycle::Allocated,
    ensures
        buffer.append_result(chunk, granted) is Ok
            <==> buffer.fits(chunk) || (granted && grantable(buffer.grown_for(chunk))),
        buffer.append_result(chunk, granted) is Ok
            ==> buffer.append(chunk, granted)
                == (ManagedModel::Allocated { store: buffer->store.grow_append(chunk) }),
        buffer.append_result(chunk, granted) is Err
            ==> buffer.append_result(chunk, granted) matches Err(BufferError::AllocationFailed),
        buffer.append_result(chunk, granted) is Err ==> buffer.append(chunk, granted) == buffer,
{
}

/// Allocation gives a buffer only for a positive capacity that the allocator
/// granted, and that buffer is allocated, empty and of the capacity asked for.
/// No capacity above `isize::MAX` is ever granted.
pub proof fn lemma_allocate_outcomes(capacity: nat, granted: bool)
    ensures
        capacity == 0 ==> ManagedModel::allocate(capacity, granted) matches Err(
            BufferError::InvalidCapacity,
        ),
        capacity > 0 && !granted ==> ManagedModel::allocate(capacity, granted) matches Err(
            BufferError::AllocationFailed,
        ),
        capacity > isize::MAX ==> ManagedModel::allocate(capacity, granted) matches Err(
            BufferError::AllocationFailed,
        ),
        0 < capacity <= isize::MAX && granted ==> (ManagedModel::allocate(capacity, granted)
            matches Ok(buffer) && buffer == (ManagedModel::Allocated {
            store: StoreModel::empty(capacity),
        })),
{
}

/// A release always ends in the released state, and a released buffer
/// answers every operation with an error and stays exactly as it is: a
/// release with `DoubleRelease`, and an append, a read or a reallocation
/// with `UseAfterRelease`.
pub proof fn lemma_released_is_terminal(
    buffer: ManagedModel,
    chunk: Seq<u8>,
    capacity: nat,
    granted: bool,
    target: Option<StoreModel>,
)
    ensures
        buffer.release() == ManagedModel::Released,
        buffer.release().lifecycle() == Lifecycle::Released,
        buffer.release().release_result() matches Err(BufferError::DoubleRelease),
        buffer.release().release() == buffer.release(),
        buffer.release().append_result(chunk, granted) matches Err(BufferError::UseAfterRelease),
        buffer.release().append(chunk, granted) == buffer.release(),
        buffer.release().append_into_result(chunk, target) matches Err(
            BufferError::UseAfterRelease,
        ),
        buffer.release().append_into(chunk, target) == buffer.release(),
        buffer.release().contents() matches Err(BufferError::UseAfterRelease),
        buffer.release().length() matches Err(BufferError::UseAfterRelease),
        buffer.release().capacity() matches Err(BufferError::UseAfterRelease),
        buffer.release().reallocate_result(capacity, granted) matches Err(
            BufferError::UseAfterRelease,
        ),
        buffer.release().reallocate(capacity, granted) == buffer.release(),
        buffer.release().reallocate_into_result(target) matches Err(BufferError::UseAfterRelease),
        buffer.release().reallocate_into(target) == buffer.release(),
{
}

/// A buffer that was allocated and released refuses a second release with
/// `DoubleRelease`, and stays released.
pub proof fn lemma_second_release_is_refused(capacity: nat, granted: bool)
    ensures
        ManagedModel::allocate(capacity, granted) matches Ok(buffer) ==> {
            &&& buffer.lifecycle() == Lifecycle::Allocated
            &&& buffer.release_result() is Ok
            &&& buffer.release().release_result() matches Err(BufferError::DoubleRelease)
            &&& buffer.release().release() == buffer.release()
        },
{
}

/// A buffer that was allocated and released refuses an append with
/// `UseAfterRelease`, whatever the allocator would answer, and is left
/// untouched by it.
pub proof fn lemma_append_after_release_is_refused(
    capacity: nat,
    granted: bool,
    chunk: Seq<u8>,
    granted_again: bool,
)
    ensures
        ManagedModel::allocate(capacity, granted) matches Ok(buffer) ==> {
            &&& buffer.release_result() is Ok
            &&& buffer.release().append_result(chunk, granted_again) matches Err(
                BufferError::UseAfterRelease,
            )
            &&& buffer.release().append(chunk, granted_again) == buffer.release()
        },
{
}

/// An operation that is answered with an error leaves the buffer exactly as
/// it was.
pub proof fn lemma_refused_operation_changes_nothing(
    buffer: ManagedModel,
    chunk: Seq<u8>,
    capacity: nat,
    granted: bool,
    target: Option<StoreModel>,
)
    ensures
        buffer.append_result(chunk, granted) is Err ==> buffer.append(chunk, granted) == buffer,
        buffer.append_into_result(chunk, target) is Err
            ==> buffer.append_into(chunk, target) == buffer,
        buffer.release_result() is Err ==> buffer.release() == buffer,
        buffer.reallocate_result(capacity, granted) is Err
            ==> buffer.reallocate(capacity, granted) == buffer,
        buffer.reallocate_into_result(target) is Err ==> buffer.reallocate_into(target) == buffer,
{
}

/// While a buffer is allocated, no operation but a release changes its
/// lifecycle state, and its length stays within its capacity.
pub proof fn lemma_allocated_stays_allocated(
    buffer: ManagedModel,
    chunk: Seq<u8>,
    capacity: nat,
    granted: bool,
    target: Option<StoreModel>,
)
    requires
        buffer.lifecycle() == Lifecycle::Allocated,
        buffer.wf(),
        target matches Some(fresh) ==> fresh.wf(),
    ensures
        buffer.append(chunk, granted).lifecycle() == Lifecycle::Allocated,
        buffer.append(chunk, granted).wf(),
        buffer.append_into(chunk, target).lifecycle() == Lifecycle::Allocated,
        buffer.append_into(chunk, target).wf(),
        buffer.reallocate(capacity, granted).lifecycle() == Lifecycle::Allocated,
        buffer.reallocate(capacity, granted).wf(),
        buffer.reallocate_into(target).lifecycle() == Lifecycle::Allocated,
        buffer.reallocate_into(target).wf(),
{
    let store = buffer->store;
    lemma_grown_capacity_bounds(store.capacity, store.bytes.len() + chunk.len());
}

} // verus!
