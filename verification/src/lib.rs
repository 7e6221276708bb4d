//! Lazily assigned 64-bit identifiers.
//!
//! An [`Id`] is one atomic word that starts out empty and is given its value
//! on first read. The value is drawn from a [`SequenceAllocator`] and never
//! changes afterwards. Identifiers resolved through one allocator are
//! pairwise distinct; a program that wants process-wide uniqueness keeps
//! exactly one allocator and hands it to every read.
//!
//! The modules, from the bottom up:
//!
//! - [`mixing`]: the bijection between sequence numbers and identifier values,
//!   with the proof that it is one;
//! - [`nonzero`]: a word that is not zero;
//! - [`sequence`]: the shared counter of sequence numbers;
//! - [`slot`]: the protocol of a single slot on plain words, with the proof
//!   that a value, once there, is there for good;
//! - [`uniqueness`]: why two identifiers never resolve to the same value;
//! - [`atomics`]: what is taken on trust about the standard atomic word;
//! - [`text`]: the textual forms of a value;
//! - [`id`]: the identifier itself.

pub mod atomics;
pub mod id;
pub mod mixing;
pub mod nonzero;
pub mod sequence;
pub mod slot;
pub mod text;
pub mod uniqueness;

pub use id::Id;
pub use nonzero::NonZeroWord;
pub use sequence::Exhausted;
pub use sequence::SequenceAllocator;
