//! The lazily resolved identifier.

use crate::atomics::SlotWord;
use crate::nonzero::NonZeroWord;
use crate::mixing::unmixed;
use crate::sequence::{usable, Exhausted, SequenceAllocator};
use crate::slot::{resolve_exclusive, settle, EMPTY};
use crate::text::{debug_form, debug_text, decimal_text, display_text};
use vstd::prelude::*;

verus! {

/// A thread-safe 64-bit identifier that takes its value when it is first
/// read.
///
/// The identifier is a single atomic word. It holds [`EMPTY`] until the first
/// read, which draws an identifier value from a [`SequenceAllocator`] and
/// installs it with one compare-and-swap; a thread that loses that race adopts
/// the winner's value. From then on every read is a single relaxed load.
///
/// The contracts below speak of [`Id::initial`], the word with which the
/// identifier went into shared use. An identifier that went into shared use
/// with a value reads as that value, always. Of one that went into shared use
/// empty the contracts say only what holds of any value that comes back: the
/// word is shared between threads, and which of them fills it is not for a
/// single call to know. What the protocol guarantees over any interleaving of
/// reads is proved in [`crate::slot`].
pub struct Id {
    word: SlotWord,
}

impl Id {
    /// The word with which this identifier went into shared use: [`EMPTY`]
    /// for one that was made to take its value later, and the value itself
    /// for one that was made with it or has been resolved under exclusive
    /// access since. It is the word that the protocol in [`crate::slot`]
    /// starts from.
    pub closed spec fn initial(&self) -> u64 {
        self.word.seed()
    }

    /// An identifier that has no value yet and takes one when first read.
    pub fn lazy() -> (id: Id)
        ensures
            id.initial() == EMPTY,
    {
        Id { word: SlotWord::new(EMPTY) }
    }

    /// An identifier that has its value from the start: the identifier value
    /// of the allocator's next sequence number.
    ///
    /// Fails when the allocator has run out.
    pub fn new(alloc: &SequenceAllocator) -> (r: Result<Id, Exhausted>)
        ensures
            r matches Ok(id) ==> id.initial() != EMPTY && usable(unmixed(id.initial())),
    {
        match alloc.next_id() {
            Ok(id) => Ok(Id::from_raw_integer(id)),
            Err(e) => Err(e),
        }
    }

    /// An identifier with the given value.
    ///
    /// The value does not come from an allocator, so it may be one that an
    /// allocator has handed out or will hand out: identifiers made this way
    /// are outside the uniqueness guarantee.
    pub fn from_raw_integer(id: NonZeroWord) -> (made: Id)
        ensures
            made.initial() == id@,
    {
        Id { word: SlotWord::new(id.get()) }
    }

    /// The value of this identifier if it has one: a single relaxed load.
    pub fn peek(&self) -> (r: Option<NonZeroWord>)
        ensures
            self.initial() != EMPTY ==> r is Some && r->Some_0@ == self.initial(),
            r matches Some(id) ==> id@ != EMPTY,
    {
        NonZeroWord::new(self.word.load())
    }

    /// Offers `candidate` as the value of this identifier and returns the
    /// value the identifier has afterwards: `candidate` if the identifier was
    /// empty, and the value that was there first if it was not.
    pub fn resolve_with(&self, candidate: NonZeroWord) -> (id: NonZeroWord)
        ensures
            self.initial() != EMPTY ==> id@ == self.initial(),
            id@ != EMPTY,
    {
        let outcome = self.word.install(EMPTY, candidate.get());
        settle(candidate, outcome)
    }

    /// Draws a candidate from the allocator and offers it. The allocator is
    /// asked first, so when it has run out this fails whatever the slot
    /// holds.
    fn lazy_init(&self, alloc: &SequenceAllocator) -> (r: Result<NonZeroWord, Exhausted>)
        ensures
            r matches Ok(id) ==> id@ != EMPTY && (self.initial() != EMPTY ==> id@
                == self.initial()),
    {
        match alloc.next_id() {
            Ok(candidate) => Ok(self.resolve_with(candidate)),
            Err(e) => Err(e),
        }
    }

    /// The value of this identifier, which is given one first if it has none.
    ///
    /// Fails only when the identifier was empty and the allocator has run out.
    pub fn get_nonzero(&self, alloc: &SequenceAllocator) -> (r: Result<NonZeroWord, Exhausted>)
        ensures
            self.initial() != EMPTY ==> r is Ok && r->Ok_0@ == self.initial(),
            r matches Ok(id) ==> id@ != EMPTY,
    {
        match self.peek() {
            Some(id) => Ok(id),
            None => self.lazy_init(alloc),
        }
    }

    /// The value of this identifier as a plain number.
    pub fn get(&self, alloc: &SequenceAllocator) -> (r: Result<u64, Exhausted>)
        ensures
            self.initial() != EMPTY ==> r is Ok && r->Ok_0 == self.initial(),
            r matches Ok(value) ==> value != EMPTY,
    {
        match self.get_nonzero(alloc) {
            Ok(id) => Ok(id.get()),
            Err(e) => Err(e),
        }
    }

    /// Like [`Id::get_nonzero`], for a caller with exclusive access: no
    /// compare-and-swap is needed, since no other thread can be looking.
    ///
    /// An identifier that went into shared use with a value keeps it and
    /// returns it. In every case the identifier afterwards holds the value
    /// that is returned. When the allocator has run out, which matters only
    /// to an identifier that was found empty, the identifier is left empty.
    pub fn ensure_init(&mut self, alloc: &SequenceAllocator) -> (r: Result<
        NonZeroWord,
        Exhausted,
    >)
        ensures
            old(self).initial() != EMPTY ==> r is Ok && r->Ok_0@ == old(self).initial(),
            r matches Ok(id) ==> id@ != EMPTY && final(self).initial() == id@,
            r is Err ==> old(self).initial() == EMPTY && final(self).initial() == EMPTY,
    {
        resolve_exclusive(self.word.word_mut(), alloc)
    }

    /// A second identifier with the same value and a word of its own.
    ///
    /// The value is resolved first if need be, so the two agree from then on.
    pub fn try_clone(&self, alloc: &SequenceAllocator) -> (r: Result<Id, Exhausted>)
        ensures
            self.initial() != EMPTY ==> r is Ok && r->Ok_0.initial() == self.initial(),
            r matches Ok(copy) ==> copy.initial() != EMPTY,
    {
        match self.get_nonzero(alloc) {
            Ok(id) => Ok(Id::from_raw_integer(id)),
            Err(e) => Err(e),
        }
    }

    /// The plain textual form: the value in decimal.
    pub fn to_string(&self, alloc: &SequenceAllocator) -> (r: Result<String, Exhausted>)
        ensures
            self.initial() != EMPTY ==> r is Ok && r->Ok_0@ == decimal_text(self.initial()),
            r matches Ok(text) ==> exists|value: u64|
                value != EMPTY && text@ == decimal_text(value),
    {
        match self.get_nonzero(alloc) {
            Ok(id) => Ok(display_text(id)),
            Err(e) => Err(e),
        }
    }

    /// The diagnostic textual form: the value in hexadecimal, and the
    /// sequence number behind it.
    pub fn to_debug_string(&self, alloc: &SequenceAllocator) -> (r: Result<String, Exhausted>)
        ensures
            self.initial() != EMPTY ==> r is Ok && r->Ok_0@ == debug_form(self.initial()),
            r matches Ok(text) ==> exists|value: u64|
                value != EMPTY && text@ == debug_form(value),
    {
        match self.get_nonzero(alloc) {
            Ok(id) => Ok(debug_text(id)),
            Err(e) => Err(e),
        }
    }
}

} // verus!
