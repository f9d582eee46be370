//! The magic number: an input that starts with other bytes is no class
//! file.

use crate::class::ClassView;
use crate::deserialization::{spec_class, spec_magic_text, starts_with_other_magic};
use crate::error::ErrorView;
use vstd::prelude::*;

verus! {

/// An input of four bytes or more that does not start with the magic
/// number fails with a parsing error, whatever follows, and so yields no
/// class and no part of one.
pub proof fn lemma_magic_is_required(s: Seq<u8>)
    requires
        starts_with_other_magic(s),
    ensures
        spec_class(s) == Err::<ClassView, ErrorView>(ErrorView::Parsing(spec_magic_text())),
{
}

} // verus!
