//! The protocol of one identifier slot, stated on plain 64-bit words.
//!
//! A slot holds [`EMPTY`] until a value is installed, and that value for ever
//! after. Threads act on it through two atomic operations only: a load, and an
//! attempt to install a candidate that succeeds when the slot is still empty.
//! Whatever the threads and however their operations interleave, the slot
//! sees one operation after the other, so a run of the protocol is a sequence
//! of operations applied to the word the slot started with. Relaxed ordering
//! is enough for that: the operations on a single atomic word always fall
//! into one order, and no other memory depends on the slot.

use crate::nonzero::NonZeroWord;
use crate::sequence::{usable, Exhausted, SequenceAllocator};
use crate::mixing::unmixed;
use vstd::prelude::*;

verus! {

/// The word of a slot that has no value yet.
pub const EMPTY: u64 = 0;

/// One atomic operation on a slot.
pub enum SlotOp {
    /// Reads the word.
    Load,
    /// Stores `candidate` if the word is [`EMPTY`], and leaves it alone if not.
    Install { candidate: u64 },
}

/// What an attempt to install a candidate reports on a slot that holds `word`:
/// `Ok` with the previous word when the candidate went in, `Err` with the
/// word that was found in its way when it did not.
pub open spec fn install_outcome(word: u64) -> Result<u64, u64> {
    if word == EMPTY {
        Ok(EMPTY)
    } else {
        Err(word)
    }
}

/// The value a thread ends up with after it tried to install `candidate` and
/// was told `outcome`: its own candidate if that went in, and otherwise the
/// value that was there first.
pub open spec fn settled(candidate: u64, outcome: Result<u64, u64>) -> u64 {
    match outcome {
        Ok(_) => candidate,
        Err(found) => found,
    }
}

/// The word a slot holds after `op`, given the word it held before.
pub open spec fn word_after(word: u64, op: SlotOp) -> u64 {
    match op {
        SlotOp::Load => word,
        SlotOp::Install { candidate } => if word == EMPTY {
            candidate
        } else {
            word
        },
    }
}

/// The value that the thread which performs `op` takes away from it: the word
/// it loaded, or the value it settled on after its attempt to install.
pub open spec fn observed(word: u64, op: SlotOp) -> u64 {
    match op {
        SlotOp::Load => word,
        SlotOp::Install { candidate } => settled(candidate, install_outcome(word)),
    }
}

/// The word a slot holds after the first `n` operations of `ops`, given that
/// it started with `start`.
pub open spec fn word_at(start: u64, ops: Seq<SlotOp>, n: nat) -> u64
    decreases n,
{
    if n == 0 {
        start
    } else {
        word_after(word_at(start, ops, (n - 1) as nat), ops[n - 1])
    }
}

/// The value that operation number `i` of `ops` hands to its thread.
pub open spec fn observed_at(start: u64, ops: Seq<SlotOp>, i: int) -> u64 {
    observed(word_at(start, ops, i as nat), ops[i])
}

/// No thread tries to install [`EMPTY`].
pub open spec fn candidates_are_values(ops: Seq<SlotOp>) -> bool {
    forall|i: int|
        0 <= i < ops.len() ==> (#[trigger] ops[i] matches SlotOp::Install { candidate }
            ==> candidate != EMPTY)
}

/// Every operation observes the word as the slot holds it right afterwards.
pub proof fn lemma_observed_is_word_after(word: u64, op: SlotOp)
    ensures
        observed(word, op) == word_after(word, op),
{
}

/// The transition to a value is final: once the slot holds a value, it holds
/// that value after any further operations.
pub proof fn lemma_value_is_final(start: u64, ops: Seq<SlotOp>, i: nat, j: nat)
    requires
        i <= j <= ops.len(),
        word_at(start, ops, i) != EMPTY,
    ensures
        word_at(start, ops, j) == word_at(start, ops, i),
    decreases j,
{
    if i < j {
        lemma_value_is_final(start, ops, i, (j - 1) as nat);
    }
}

/// Reads are stable: once any operation has come away with a value, every
/// later operation on the same slot comes away with the same value, whichever
/// threads perform them and however they interleave.
pub proof fn lemma_reads_agree(start: u64, ops: Seq<SlotOp>, i: int, j: int)
    requires
        0 <= i <= j < ops.len(),
        observed_at(start, ops, i) != EMPTY,
    ensures
        observed_at(start, ops, j) == observed_at(start, ops, i),
        word_at(start, ops, ops.len()) == observed_at(start, ops, i),
{
    lemma_observed_is_word_after(word_at(start, ops, i as nat), ops[i]);
    lemma_value_is_final(start, ops, (i + 1) as nat, ops.len());
    if i < j {
        lemma_observed_is_word_after(word_at(start, ops, j as nat), ops[j]);
        lemma_value_is_final(start, ops, (i + 1) as nat, j as nat);
        lemma_value_is_final(start, ops, (i + 1) as nat, (j + 1) as nat);
    }
}

/// Whether the operations at `load` and `install` make up one read of the
/// slot: a load and, if the load found the slot empty, a later attempt to
/// install a value. Where the load found a value, `install` is not looked at.
pub open spec fn is_read(start: u64, ops: Seq<SlotOp>, load: int, install: int) -> bool {
    &&& 0 <= load < ops.len()
    &&& ops[load] is Load
    &&& observed_at(start, ops, load) == EMPTY ==> {
        &&& load < install < ops.len()
        &&& ops[install] matches SlotOp::Install { candidate }
        &&& candidate != EMPTY
    }
}

/// The value that the read made up of the operations at `load` and `install`
/// returns.
pub open spec fn read_value(start: u64, ops: Seq<SlotOp>, load: int, install: int) -> u64 {
    let loaded = observed_at(start, ops, load);
    if loaded != EMPTY {
        loaded
    } else {
        observed_at(start, ops, install)
    }
}

/// Every read returns a value, and any two reads of one slot return the same
/// value, in whatever order the operations of the two reads fall, and
/// whatever other operations fall between them.
pub proof fn lemma_all_reads_agree(
    start: u64,
    ops: Seq<SlotOp>,
    load_a: int,
    install_a: int,
    load_b: int,
    install_b: int,
)
    requires
        is_read(start, ops, load_a, install_a),
        is_read(start, ops, load_b, install_b),
    ensures
        read_value(start, ops, load_a, install_a) != EMPTY,
        read_value(start, ops, load_a, install_a) == read_value(start, ops, load_b, install_b),
        read_value(start, ops, load_a, install_a) == word_at(start, ops, ops.len()),
{
    let at_a = if observed_at(start, ops, load_a) != EMPTY {
        load_a
    } else {
        install_a
    };
    let at_b = if observed_at(start, ops, load_b) != EMPTY {
        load_b
    } else {
        install_b
    };
    lemma_reads_agree(start, ops, at_a, at_a);
    lemma_reads_agree(start, ops, at_b, at_b);
}

/// A read with exclusive access does what a read does when no other thread
/// gets in between: on a slot that holds `word`, with `candidate` at hand, it
/// returns `word` and leaves it if that is a value, and otherwise installs
/// and returns `candidate`.
pub proof fn lemma_exclusive_read_is_a_read(word: u64, candidate: u64)
    requires
        candidate != EMPTY,
    ensures
        ({
            let ops = seq![SlotOp::Load, SlotOp::Install { candidate }];
            &&& is_read(word, ops, 0, 1)
            &&& read_value(word, ops, 0, 1) == (if word != EMPTY {
                word
            } else {
                candidate
            })
            &&& word_at(word, ops, 2) == read_value(word, ops, 0, 1)
        }),
{
    let ops = seq![SlotOp::Load, SlotOp::Install { candidate }];
    assert(word_at(word, ops, 0) == word);
    assert(word_at(word, ops, 1) == word_after(word_at(word, ops, 0), ops[0]));
    assert(word_at(word, ops, 2) == word_after(word_at(word, ops, 1), ops[1]));
}

/// An attempt to install a value always comes away with a value.
pub proof fn lemma_install_resolves(start: u64, ops: Seq<SlotOp>, i: int)
    requires
        0 <= i < ops.len(),
        candidates_are_values(ops),
        ops[i] is Install,
    ensures
        observed_at(start, ops, i) != EMPTY,
{
}

/// A slot that starts with a value hands exactly that value to every
/// operation, and never takes a candidate.
pub proof fn lemma_seeded_slot_keeps_its_value(seed: u64, ops: Seq<SlotOp>, i: int)
    requires
        seed != EMPTY,
        0 <= i < ops.len(),
    ensures
        observed_at(seed, ops, i) == seed,
        word_at(seed, ops, ops.len()) == seed,
{
    lemma_value_is_final(seed, ops, 0, i as nat);
    lemma_value_is_final(seed, ops, 0, ops.len());
}

/// A slot that is made with a value behaves like a slot that is made empty
/// and offered that value before anything else happens to it.
pub proof fn lemma_seed_is_a_first_install(seed: u64, ops: Seq<SlotOp>, n: nat)
    requires
        n <= ops.len(),
    ensures
        word_at(seed, ops, n) == word_at(
            EMPTY,
            seq![SlotOp::Install { candidate: seed }] + ops,
            n + 1,
        ),
    decreases n,
{
    let with_install = seq![SlotOp::Install { candidate: seed }] + ops;
    if n == 0 {
        assert(word_at(EMPTY, with_install, 1) == word_after(
            word_at(EMPTY, with_install, 0),
            with_install[0],
        ));
    } else {
        lemma_seed_is_a_first_install(seed, ops, (n - 1) as nat);
        assert(with_install[n as int] == ops[n - 1]);
    }
}

/// The value of a slot that started empty is a candidate that some thread
/// offered to this very slot, at or before the operation that observed it.
pub proof fn lemma_value_was_offered(ops: Seq<SlotOp>, i: int) -> (k: int)
    requires
        0 <= i < ops.len(),
        observed_at(EMPTY, ops, i) != EMPTY,
    ensures
        0 <= k <= i,
        ops[k] == (SlotOp::Install { candidate: observed_at(EMPTY, ops, i) }),
    decreases i,
{
    let before = word_at(EMPTY, ops, i as nat);
    if before == EMPTY {
        i
    } else {
        lemma_observed_is_word_after(word_at(EMPTY, ops, (i - 1) as nat), ops[i - 1]);
        lemma_value_is_final(EMPTY, ops, i as nat, (i + 1) as nat);
        lemma_observed_is_word_after(before, ops[i]);
        lemma_value_was_offered(ops, i - 1)
    }
}

/// Two slots that started empty and were never offered the same candidate
/// resolve to different values.
pub proof fn lemma_separate_candidates_give_separate_values(
    ops_a: Seq<SlotOp>,
    ops_b: Seq<SlotOp>,
    i: int,
    j: int,
)
    requires
        0 <= i < ops_a.len(),
        0 <= j < ops_b.len(),
        observed_at(EMPTY, ops_a, i) != EMPTY,
        observed_at(EMPTY, ops_b, j) != EMPTY,
        forall|m: int, n: int|
            0 <= m < ops_a.len() && 0 <= n < ops_b.len() && #[trigger] ops_a[m] is Install
                && #[trigger] ops_b[n] is Install ==> ops_a[m] != ops_b[n],
    ensures
        observed_at(EMPTY, ops_a, i) != observed_at(EMPTY, ops_b, j),
{
    let m = lemma_value_was_offered(ops_a, i);
    let n = lemma_value_was_offered(ops_b, j);
    assert(ops_a[m] is Install && ops_b[n] is Install);
}

/// Settles on a value after an attempt to install `candidate`.
///
/// `outcome` is what the compare-and-swap from [`EMPTY`] reported. A failed
/// swap found a word other than [`EMPTY`] in its way, which is a value.
pub fn settle(candidate: NonZeroWord, outcome: Result<u64, u64>) -> (id: NonZeroWord)
    requires
        outcome matches Err(found) ==> found != EMPTY,
    ensures
        id@ == settled(candidate@, outcome),
{
    match outcome {
        Ok(_) => candidate,
        Err(found) => match NonZeroWord::new(found) {
            Some(id) => id,
            None => candidate,
        },
    }
}

/// Reads a slot to which the caller has exclusive access, giving it a value
/// first if it has none.
///
/// A slot that holds a value is left alone and the allocator is not touched.
/// An empty slot is filled with the allocator's next identifier value; when
/// the allocator has none left the slot stays empty.
pub fn resolve_exclusive(word: &mut u64, alloc: &SequenceAllocator) -> (r: Result<
    NonZeroWord,
    Exhausted,
>)
    ensures
        *old(word) != EMPTY ==> r is Ok && r->Ok_0@ == *old(word) && *final(word) == *old(word),
        *old(word) == EMPTY ==> match r {
            Ok(id) => *final(word) == id@ && usable(unmixed(id@)),
            Err(_) => *final(word) == EMPTY,
        },
{
    match NonZeroWord::new(*word) {
        Some(id) => Ok(id),
        None => match alloc.next_id() {
            Ok(id) => {
                *word = id.get();
                Ok(id)
            },
            Err(e) => Err(e),
        },
    }
}

} // verus!
