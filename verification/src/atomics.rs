//! What this crate takes on trust about the standard library's atomic word.
//!
//! Two things are built on `AtomicU64` here. The counter of the sequence
//! allocator is a bare atomic, of which nothing is claimed but the word it
//! was created with. The word of an identifier is a [`SlotWord`], whose
//! operations are all in this file and keep to one discipline: while the word
//! is shared, it is written by an exchange from [`EMPTY`] and by nothing else.
//! A word that went into shared use with a value therefore keeps that value,
//! and that is what the contracts of [`SlotWord`] claim. Nothing is claimed
//! about what a shared word holds that went into shared use empty: any thread
//! may have filled it at any moment.

use crate::slot::EMPTY;
use core::sync::atomic::AtomicU64;
use core::sync::atomic::Ordering;
use vstd::prelude::*;

verus! {

/// The word with which an atomic went into shared use: the word it was
/// created with or, where it has been borrowed exclusively since, the word
/// that the last such borrow left in it. It says nothing of what the atomic
/// holds after threads have shared it.
pub uninterp spec fn starting_word(atomic: AtomicU64) -> u64;

/// `AtomicU64::new`: a new atomic, created with `word`.
#[verifier::external_body]
pub(crate) fn new_atomic(word: u64) -> (atomic: AtomicU64)
    ensures
        starting_word(atomic) == word,
{
    AtomicU64::new(word)
}

/// The atomic word of one identifier.
///
/// The field is private to this file, and every function of this file that
/// touches it is listed here: [`SlotWord::new`] creates it,
/// [`SlotWord::load`] reads it, [`SlotWord::install`] exchanges it from
/// [`EMPTY`], and [`SlotWord::word_mut`] hands it out under exclusive access.
/// No shared operation stores over a value.
pub struct SlotWord {
    word: AtomicU64,
}

impl SlotWord {
    /// The word with which this slot went into shared use.
    pub closed spec fn seed(&self) -> u64 {
        starting_word(self.word)
    }

    /// A slot that holds `word`.
    pub(crate) fn new(word: u64) -> (slot: SlotWord)
        ensures
            slot.seed() == word,
    {
        SlotWord { word: new_atomic(word) }
    }

    /// `AtomicU64::load` with relaxed ordering.
    ///
    /// Claimed of the result: a slot that went into shared use with a value
    /// reads as that value, since no shared operation of this type stores
    /// over a value. Of a slot that went into shared use empty nothing is
    /// claimed.
    #[verifier::external_body]
    pub(crate) fn load(&self) -> (word: u64)
        ensures
            self.seed() != EMPTY ==> word == self.seed(),
    {
        self.word.load(Ordering::Relaxed)
    }

    /// `AtomicU64::compare_exchange` with relaxed ordering on both sides:
    /// stores `new` if the slot holds `current`, which has to be [`EMPTY`].
    ///
    /// Claimed of the result: a successful exchange returns `Ok` with the
    /// previous word, which is `current`; a failed one returns `Err` with the
    /// word that was found instead, which is not `current`, since this
    /// exchange does not fail spuriously. On a slot that went into shared use
    /// with a value the exchange fails, and that value is the word it finds.
    #[verifier::external_body]
    pub(crate) fn install(&self, current: u64, new: u64) -> (outcome: Result<u64, u64>)
        requires
            current == EMPTY,
        ensures
            outcome matches Ok(previous) ==> previous == current,
            outcome matches Err(found) ==> found != current,
            self.seed() != EMPTY ==> outcome is Err && outcome->Err_0 == self.seed(),
    {
        self.word.compare_exchange(current, new, Ordering::Relaxed, Ordering::Relaxed)
    }

    /// `AtomicU64::get_mut`: exclusive access to the word inside the atomic.
    ///
    /// Claimed: the reference is to the atomic's own word. A slot that went
    /// into shared use with a value still holds it, and whatever the borrow
    /// leaves in the word is what the slot goes back into shared use with. Of
    /// the word found in a slot that went into shared use empty nothing is
    /// claimed.
    #[verifier::external_body]
    pub(crate) fn word_mut(&mut self) -> (word: &mut u64)
        ensures
            old(self).seed() != EMPTY ==> *word == old(self).seed(),
            final(self).seed() == *final(word),
    {
        self.word.get_mut()
    }
}

} // verus!
