//! Attributes that the decoder does not know are kept as `Unknown`, with
//! the length that the file declares for them, and exactly that many bytes
//! of the input are passed over.

use crate::attributes::{
    Attribute, AttributeView, CodeAttributes, CodeAttributesView, UnknownAttribute,
};
use crate::const_pool::{ConstPoolView, Utf8Info};
use crate::deserialization::attribute::recognized;
use crate::error::{ErrorView, Parsed};
use crate::grammar::DeserializableLinked;
use crate::reader::{available, spec_read_u32};
use vstd::prelude::*;

verus! {

/// What an attribute that is not known decodes to, given the position `p`
/// behind the index of its name: the declared length is kept, and the
/// decode ends that many bytes behind the length.
pub open spec fn spec_unknown_body(s: Seq<u8>, p: int) -> Parsed<UnknownAttribute> {
    match spec_read_u32(s, p) {
        Err(e) => Err(e),
        Ok((size, body)) => if available(s, body, size as int) {
            Ok((UnknownAttribute { size }, body + size))
        } else {
            Err(ErrorView::CannotRead)
        },
    }
}

/// An attribute of a class or a member whose name is none of the nine
/// names that the decoder knows decodes to `Unknown` with the declared
/// length, and the decode passes over exactly that many bytes of body.
pub proof fn lemma_attribute_not_recognized(s: Seq<u8>, pos: int, pool: Seq<ConstPoolView>)
    requires
        Utf8Info::linked_grammar(s, pos, pool) matches Ok((name, _)) && !recognized(name),
    ensures
        ({
            let p = Utf8Info::linked_grammar(s, pos, pool)->Ok_0.1;
            Attribute::linked_grammar(s, pos, pool) == match spec_unknown_body(s, p) {
                Err(e) => Err(e),
                Ok((other, end)) => Ok((AttributeView::Unknown(other), end)),
            }
        }),
{
}

/// An attribute of a `Code` attribute whose name is neither
/// `LineNumberTable` nor `LocalVariableTable` decodes to `Unknown` with the
/// declared length, and the decode passes over exactly that many bytes of
/// body.
pub proof fn lemma_code_attribute_not_recognized(s: Seq<u8>, pos: int, pool: Seq<ConstPoolView>)
    requires
        Utf8Info::linked_grammar(s, pos, pool) matches Ok((name, _)) && name
            != "LineNumberTable"@ && name != "LocalVariableTable"@,
    ensures
        ({
            let p = Utf8Info::linked_grammar(s, pos, pool)->Ok_0.1;
            CodeAttributes::linked_grammar(s, pos, pool) == match spec_unknown_body(s, p) {
                Err(e) => Err(e),
                Ok((other, end)) => Ok((CodeAttributesView::Unknown(other), end)),
            }
        }),
{
}

} // verus!
