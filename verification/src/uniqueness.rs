//! Why identifiers that take their values from one allocator never share a
//! value.
//!
//! The argument has three links. The allocator hands out each sequence number
//! once ([`lemma_allocations_are_distinct`]). Mixing keeps different numbers
//! different. And a slot that started empty ends up with one of the candidates
//! that were offered to it ([`lemma_value_was_offered`]), where a candidate is
//! made from a fresh allocation every time and offered to one slot only.

use crate::mixing::mixed;
use crate::sequence::{handed_out, lemma_allocations_are_distinct, usable};
use crate::slot::{
    lemma_seeded_slot_keeps_its_value, lemma_reads_agree, lemma_value_was_offered, observed_at,
    word_at, SlotOp, EMPTY,
};
use vstd::prelude::*;

verus! {

/// Every candidate in `ops` is the identifier value of an allocation:
/// operation `m`, where it is an attempt to install, offers the value made
/// from allocation number `source[m]`.
pub open spec fn offers_allocations(ops: Seq<SlotOp>, source: Seq<nat>) -> bool {
    &&& source.len() == ops.len()
    &&& forall|m: int|
        0 <= m < ops.len() && #[trigger] ops[m] is Install ==> ops[m] == (SlotOp::Install {
            candidate: mixed(handed_out(source[m])),
        })
}

/// Two identifiers that started empty resolve to different values.
///
/// `ops_a` and `ops_b` are the operations that two slots have seen. Their
/// candidates come from the first `count` allocations of one allocator, none
/// of which was refused, and no allocation was offered to both slots.
pub proof fn lemma_identifiers_are_unique(
    ops_a: Seq<SlotOp>,
    source_a: Seq<nat>,
    ops_b: Seq<SlotOp>,
    source_b: Seq<nat>,
    count: nat,
    i: int,
    j: int,
)
    requires
        offers_allocations(ops_a, source_a),
        offers_allocations(ops_b, source_b),
        forall|k: nat| k < count ==> usable(#[trigger] handed_out(k)),
        forall|m: int| 0 <= m < source_a.len() ==> #[trigger] source_a[m] < count,
        forall|n: int| 0 <= n < source_b.len() ==> #[trigger] source_b[n] < count,
        forall|m: int, n: int|
            0 <= m < ops_a.len() && 0 <= n < ops_b.len() && ops_a[m] is Install
                && ops_b[n] is Install ==> #[trigger] source_a[m] != #[trigger] source_b[n],
        0 <= i < ops_a.len(),
        0 <= j < ops_b.len(),
        observed_at(EMPTY, ops_a, i) != EMPTY,
        observed_at(EMPTY, ops_b, j) != EMPTY,
    ensures
        observed_at(EMPTY, ops_a, i) != observed_at(EMPTY, ops_b, j),
{
    let m = lemma_value_was_offered(ops_a, i);
    let n = lemma_value_was_offered(ops_b, j);
    let from_a = source_a[m];
    let from_b = source_b[n];
    assert(ops_a[m] is Install && ops_b[n] is Install);
    assert(from_a != from_b);
    assert(from_a < count && from_b < count);
    if from_a < from_b {
        lemma_allocations_are_distinct(from_a, from_b);
    } else {
        lemma_allocations_are_distinct(from_b, from_a);
    }
}

/// A copy agrees with its source for ever.
///
/// The copy is a slot of its own that starts with the value `value` which
/// operation `i` read from the source. Every operation on the copy, and every
/// later operation on the source, comes away with `value`.
pub proof fn lemma_copy_agrees_with_source(
    start: u64,
    source_ops: Seq<SlotOp>,
    i: int,
    copy_ops: Seq<SlotOp>,
    j: int,
    k: int,
)
    requires
        0 <= i <= j < source_ops.len(),
        0 <= k < copy_ops.len(),
        observed_at(start, source_ops, i) != EMPTY,
    ensures
        observed_at(observed_at(start, source_ops, i), copy_ops, k) == observed_at(
            start,
            source_ops,
            j,
        ),
        word_at(observed_at(start, source_ops, i), copy_ops, copy_ops.len()) == word_at(
            start,
            source_ops,
            source_ops.len(),
        ),
{
    lemma_reads_agree(start, source_ops, i, j);
    lemma_seeded_slot_keeps_its_value(observed_at(start, source_ops, i), copy_ops, k);
}

} // verus!
