//! What holds of every decode, proved from the grammar.
//!
//! - [`magic`]: an input that does not start with the magic number fails
//!   with a parsing error.
//! - [`links`]: every handle of a decoded class is the payload of a slot
//!   of its pool, of the variant that the handle requires.
//! - [`reserved`]: the slot behind a `Long` or a `Double` is there and
//!   cannot be referred to.
//! - [`indices`]: the index 0 is a link error in an entry of the pool,
//!   and stands for no class only where the format lets it.
//! - [`flags`]: every set of flags holds only flags of its place.
//! - [`unknown`]: an attribute that is not known keeps its declared
//!   length, and that many bytes are passed over.
//! - [`truncation`]: cutting the input short yields `CannotRead` or
//!   changes nothing, and what a part of the input decides, the whole
//!   input confirms.
//! - [`runs`]: where the values of a run stand.

pub mod flags;
pub mod indices;
pub mod links;
pub mod magic;
pub mod reserved;
pub mod runs;
pub mod truncation;
pub mod unknown;
