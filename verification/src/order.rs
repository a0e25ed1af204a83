//! When the order of two appends matters.
//!
//! Appending is concatenation, and concatenation keeps order: two chunks
//! that change places change the contents, unless both are repetitions of
//! one and the same block of bytes.

use crate::store::StoreModel;
use vstd::prelude::*;

verus! {

/// `block` written `times` times in a row.
pub open spec fn repeated(block: Seq<u8>, times: nat) -> Seq<u8>
    decreases times,
{
    if times == 0 {
        Seq::empty()
    } else {
        repeated(block, (times - 1) as nat) + block
    }
}

/// Whether `first` and `second` are both repetitions of one block. Two equal
/// chunks are, and so is any chunk together with the empty one.
pub open spec fn repeat_one_block(first: Seq<u8>, second: Seq<u8>) -> bool {
    exists|block: Seq<u8>, i: nat, j: nat|
        #![trigger repeated(block, i), repeated(block, j)]
        first == repeated(block, i) && second == repeated(block, j)
}

/// Repeating a block `i` times and then `j` times repeats it `i + j` times.
pub proof fn lemma_repeated_adds(block: Seq<u8>, i: nat, j: nat)
    ensures
        repeated(block, i) + repeated(block, j) == repeated(block, i + j),
    decreases j,
{
    if j > 0 {
        lemma_repeated_adds(block, i, (j - 1) as nat);
    }
}

/// A block repeated once is the block itself.
proof fn lemma_repeated_once(block: Seq<u8>)
    ensures
        repeated(block, 1) == block,
{
    assert(repeated(block, 1) == repeated(block, 0) + block);
}

/// What is left of `longer` behind its first `shorter.len()` bytes.
spec fn rest_behind(shorter: Seq<u8>, longer: Seq<u8>) -> Seq<u8> {
    longer.subrange(shorter.len() as int, longer.len() as int)
}

/// If two chunks give the same bytes in either order, the longer one begins
/// with the shorter one, and what is left of it gives the same bytes with
/// the shorter one in either order as well.
proof fn lemma_split_off_prefix(shorter: Seq<u8>, longer: Seq<u8>)
    requires
        shorter.len() <= longer.len(),
        shorter + longer == longer + shorter,
    ensures
        longer == shorter + rest_behind(shorter, longer),
        shorter + rest_behind(shorter, longer) == rest_behind(shorter, longer) + shorter,
{
    let n: int = shorter.len() as int;
    let rest = rest_behind(shorter, longer);
    let back = longer + shorter;
    // The first `n` bytes of both orders agree, so `longer` begins with `shorter`.
    assert forall|k: int| 0 <= k < n implies longer[k] == shorter[k] by {
        assert(back[k] == longer[k]);
    }
    // Behind those `n` bytes the two orders read `shorter + rest` and `rest + shorter`.
    assert forall|k: int| 0 <= k < longer.len() implies (shorter + rest)[k] == (rest + shorter)[k] by {
        if k + n < longer.len() {
            assert(back[k + n] == longer[k + n]);
        } else {
            assert(back[k + n] == shorter[k + n - longer.len()]);
        }
    }
}

/// Two chunks that are repetitions of one block give the same bytes in
/// either order.
pub proof fn lemma_repetitions_commute(first: Seq<u8>, second: Seq<u8>)
    requires
        repeat_one_block(first, second),
    ensures
        first + second == second + first,
{
    let (block, i, j) = choose|block: Seq<u8>, i: nat, j: nat|
        #![trigger repeated(block, i), repeated(block, j)]
        first == repeated(block, i) && second == repeated(block, j);
    lemma_repeated_adds(block, i, j);
    lemma_repeated_adds(block, j, i);
}

/// Two chunks that give the same bytes in either order are repetitions of
/// one block.
pub proof fn lemma_commuting_chunks_repeat(first: Seq<u8>, second: Seq<u8>)
    requires
        first + second == second + first,
    ensures
        repeat_one_block(first, second),
    decreases first.len() + second.len(),
{
    if first.len() == 0 {
        lemma_repeated_once(second);
        assert(first == repeated(second, 0) && second == repeated(second, 1));
    } else if second.len() == 0 {
        lemma_repeated_once(first);
        assert(first == repeated(first, 1) && second == repeated(first, 0));
    } else if first.len() <= second.len() {
        let rest = rest_behind(first, second);
        lemma_split_off_prefix(first, second);
        lemma_commuting_chunks_repeat(first, rest);
        let (block, i, j) = choose|block: Seq<u8>, i: nat, j: nat|
            #![trigger repeated(block, i), repeated(block, j)]
            first == repeated(block, i) && rest == repeated(block, j);
        lemma_repeated_adds(block, i, j);
    } else {
        let rest = rest_behind(second, first);
        lemma_split_off_prefix(second, first);
        lemma_commuting_chunks_repeat(second, rest);
        let (block, i, j) = choose|block: Seq<u8>, i: nat, j: nat|
            #![trigger repeated(block, i), repeated(block, j)]
            second == repeated(block, i) && rest == repeated(block, j);
        lemma_repeated_adds(block, i, j);
    }
}

/// The bytes held after `first` and then `second` were appended to `store`.
pub open spec fn appended_in_turn(store: StoreModel, first: Seq<u8>, second: Seq<u8>) -> Seq<u8> {
    store.grow_append(first).grow_append(second).bytes
}

/// Appending `first` and then `second` leaves the same bytes as appending
/// `second` and then `first` exactly when the two chunks are repetitions of
/// one block. In every other case the order of the appends shows in the
/// contents.
pub proof fn lemma_append_order(store: StoreModel, first: Seq<u8>, second: Seq<u8>)
    ensures
        appended_in_turn(store, first, second) == appended_in_turn(store, second, first)
            <==> repeat_one_block(first, second),
{
    let forth = appended_in_turn(store, first, second);
    let back = appended_in_turn(store, second, first);
    let n: int = store.bytes.len() as int;
    assert(forth =~= store.bytes + (first + second));
    assert(back =~= store.bytes + (second + first));
    if forth == back {
        assert(first + second =~= forth.subrange(n, forth.len() as int));
        assert(second + first =~= back.subrange(n, back.len() as int));
        lemma_commuting_chunks_repeat(first, second);
    }
    if repeat_one_block(first, second) {
        lemma_repetitions_commute(first, second);
    }
}

/// Two different chunks of the same length never leave the same contents
/// when their appends change places.
pub proof fn lemma_append_order_of_equal_lengths(
    store: StoreModel,
    first: Seq<u8>,
    second: Seq<u8>,
)
    requires
        first.len() == second.len(),
        first != second,
    ensures
        appended_in_turn(store, first, second) != appended_in_turn(store, second, first),
{
    let forth = appended_in_turn(store, first, second);
    let back = appended_in_turn(store, second, first);
    let n: int = store.bytes.len() as int;
    let m: int = first.len() as int;
    if forth == back {
        assert(first =~= forth.subrange(n, n + m));
        assert(second =~= back.subrange(n, n + m));
    }
}

/// Under a fixed capacity that holds both chunks, the order of two appends
/// shows in the contents in the same way.
pub proof fn lemma_bounded_append_order(store: StoreModel, first: Seq<u8>, second: Seq<u8>)
    requires
        store.bytes.len() + first.len() + second.len() <= store.capacity,
    ensures
        store.append(first).append(second).bytes == store.append(second).append(first).bytes
            <==> repeat_one_block(first, second),
{
    lemma_append_order(store, first, second);
}

} // verus!
