//! The sequence allocator: a shared counter that hands out sequence numbers.

use crate::mixing::{mix, mixed, unmixed, lemma_mix_is_injective};
use crate::atomics::{new_atomic, starting_word};
use crate::nonzero::NonZeroWord;
use core::sync::atomic::AtomicU64;
use core::sync::atomic::Ordering;
use vstd::prelude::*;

verus! {

/// The first sequence number an allocator hands out.
pub const FIRST_SEQUENCE: u64 = 1;

/// The largest sequence number an allocator hands out: half of the 64-bit
/// range. A counter that has moved past it is treated as used up long before
/// it could wrap around.
pub const LAST_SEQUENCE: u64 = 0x7fff_ffff_ffff_ffff;

/// The allocator has run out of sequence numbers.
///
/// Nothing can be done about it: identifiers already handed out stay valid,
/// but no further one can be resolved. A program that relies on uniqueness is
/// expected to terminate when it sees this.
#[derive(Clone, Copy, Debug, PartialEq, Eq)]
pub struct Exhausted;

/// Whether a counter reading may be handed out as a sequence number.
pub open spec fn usable(raw: u64) -> bool {
    FIRST_SEQUENCE <= raw <= LAST_SEQUENCE
}

/// The reading that the `k`-th increment (counting from zero) of a fresh
/// counter returns: the counter starts at [`FIRST_SEQUENCE`], goes up by one
/// each time, and wraps at 2^64.
pub open spec fn handed_out(k: nat) -> u64 {
    ((FIRST_SEQUENCE + k) % 0x1_0000_0000_0000_0000) as u64
}

/// As long as no reading has been refused, later readings are larger than
/// earlier ones, so no two are equal, and neither are the identifier values
/// made from them.
///
/// The refusal threshold lies half a range before the wrap. A thread that is
/// delayed between its increment and its check therefore cannot miss it.
pub proof fn lemma_allocations_are_distinct(i: nat, j: nat)
    requires
        i < j,
        forall|k: nat| k <= j ==> usable(#[trigger] handed_out(k)),
    ensures
        handed_out(i) < handed_out(j),
        mixed(handed_out(i)) != mixed(handed_out(j)),
        mixed(handed_out(i)) != 0,
        mixed(handed_out(j)) != 0,
{
    if j >= LAST_SEQUENCE {
        let k: nat = LAST_SEQUENCE as nat;
        assert(!usable(handed_out(k)));
    }
    assert(handed_out(i) == FIRST_SEQUENCE + i);
    assert(handed_out(j) == FIRST_SEQUENCE + j);
    lemma_mix_is_injective(handed_out(i), handed_out(j));
    lemma_mix_is_injective(handed_out(i), 0);
    lemma_mix_is_injective(handed_out(j), 0);
}

/// Decides whether a counter reading is handed out.
///
/// A reading is refused once it has left the lower half of the range, and
/// also when it is zero, which a counter that started at one shows only after
/// it has wrapped.
pub fn check_sequence(raw: u64) -> (r: Result<NonZeroWord, Exhausted>)
    ensures
        usable(raw) ==> r is Ok && r->Ok_0@ == raw,
        !usable(raw) ==> r is Err,
{
    if raw > LAST_SEQUENCE {
        return Err(Exhausted);
    }
    match NonZeroWord::new(raw) {
        Some(seq) => Ok(seq),
        None => Err(Exhausted),
    }
}

/// The identifier value that stands for a sequence number.
pub fn id_of_sequence(seq: NonZeroWord) -> (id: NonZeroWord)
    ensures
        id@ == mixed(seq@),
        unmixed(id@) == seq@,
{
    let raw: u64 = seq.get();
    match NonZeroWord::new(mix(raw)) {
        Some(id) => id,
        None => seq,
    }
}

/// A counter of sequence numbers that any number of threads may share.
///
/// Identifiers are unique among those resolved through the same allocator.
pub struct SequenceAllocator {
    counter: AtomicU64,
}

impl SequenceAllocator {
    /// The reading that the counter was made with.
    pub closed spec fn first(&self) -> u64 {
        starting_word(self.counter)
    }

    /// An allocator whose counter stands at [`FIRST_SEQUENCE`].
    pub fn new() -> (alloc: SequenceAllocator)
        ensures
            alloc.first() == FIRST_SEQUENCE,
    {
        SequenceAllocator { counter: new_atomic(FIRST_SEQUENCE) }
    }

    /// Takes the next sequence number: one atomic increment of the counter,
    /// whose previous reading is checked by [`check_sequence`].
    ///
    /// What the counter holds is decided by every thread that shares it, so
    /// the contract only says what holds of any number that comes back.
    pub fn next_seq(&self) -> (r: Result<NonZeroWord, Exhausted>)
        ensures
            r matches Ok(seq) ==> usable(seq@),
    {
        let raw: u64 = self.counter.fetch_add(1, Ordering::Relaxed);
        check_sequence(raw)
    }

    /// Takes the next sequence number and turns it into an identifier value.
    pub fn next_id(&self) -> (r: Result<NonZeroWord, Exhausted>)
        ensures
            r matches Ok(id) ==> usable(unmixed(id@)),
    {
        match self.next_seq() {
            Ok(seq) => Ok(id_of_sequence(seq)),
            Err(e) => Err(e),
        }
    }
}

} // verus!
