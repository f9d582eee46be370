//! Fields and methods, the version and the flags of members and classes.

use crate::attributes::Attribute;
use crate::components::{
    AccessSpecifierFlags, ClassAccessFlags, ClassVersion, ComponentInfo, ComponentInfoView,
    ACCESS_SPECIFIER_MASK, CLASS_ACCESS_MASK,
};
use crate::const_pool::{ConstPoolType, ConstPoolView, Utf8Info};
use crate::deserialization::attribute::spec_flags;
use crate::error::{DeserializationError, Parsed};
use crate::grammar::{
    deserialize_linked_table, linked_item, spec_table, Deserializable, DeserializableLinked,
};
use crate::reader::{spec_read_u16, ByteCursor};
use vstd::prelude::*;

verus! {

impl Deserializable for AccessSpecifierFlags {
    open spec fn grammar(s: Seq<u8>, pos: int) -> Parsed<u16> {
        spec_flags(s, pos, ACCESS_SPECIFIER_MASK)
    }

    fn deserialize(cursor: &mut ByteCursor) -> (r: Result<
        AccessSpecifierFlags,
        DeserializationError,
    >) {
        match AccessSpecifierFlags::from_bits(cursor.read_u16()?) {
            Some(flags) => Ok(flags),
            None => Err(DeserializationError::Parsing("Unable to parse bit flag.".to_owned())),
        }
    }
}

impl Deserializable for ClassAccessFlags {
    open spec fn grammar(s: Seq<u8>, pos: int) -> Parsed<u16> {
        spec_flags(s, pos, CLASS_ACCESS_MASK)
    }

    fn deserialize(cursor: &mut ByteCursor) -> (r: Result<ClassAccessFlags, DeserializationError>) {
        match ClassAccessFlags::from_bits(cursor.read_u16()?) {
            Some(flags) => Ok(flags),
            None => Err(DeserializationError::Parsing("Unable to parse bit flag.".to_owned())),
        }
    }
}

impl DeserializableLinked for ComponentInfo {
    /// The flags, the indices of the name and of the descriptor, which must
    /// each name a `Utf8` entry, and the table of attributes.
    open spec fn linked_grammar(s: Seq<u8>, pos: int, pool: Seq<ConstPoolView>) -> Parsed<
        ComponentInfoView,
    > {
        match AccessSpecifierFlags::grammar(s, pos) {
            Err(e) => Err(e),
            Ok((access, at1)) => match Utf8Info::linked_grammar(s, at1, pool) {
                Err(e) => Err(e),
                Ok((name, at2)) => match Utf8Info::linked_grammar(s, at2, pool) {
                    Err(e) => Err(e),
                    Ok((descriptor, at3)) => match spec_table(
                        linked_item::<Attribute>(s, pool),
                        s,
                        at3,
                    ) {
                        Err(e) => Err(e),
                        Ok((attributes, at4)) => Ok(
                            (ComponentInfoView { access, name, descriptor, attributes }, at4),
                        ),
                    },
                },
            },
        }
    }

    fn deserialize_link(cursor: &mut ByteCursor, pool: &[ConstPoolType]) -> (r: Result<
        ComponentInfo,
        DeserializationError,
    >) {
        let access = AccessSpecifierFlags::deserialize(cursor)?;
        let name = Utf8Info::deserialize_link(cursor, pool)?;
        let descriptor = Utf8Info::deserialize_link(cursor, pool)?;
        let attributes = deserialize_linked_table::<Attribute>(cursor, pool)?;
        Ok(ComponentInfo { access, name, descriptor, attributes })
    }
}

impl Deserializable for ClassVersion {
    /// The minor version and then the major version. Neither is checked.
    open spec fn grammar(s: Seq<u8>, pos: int) -> Parsed<ClassVersion> {
        match spec_read_u16(s, pos) {
            Err(e) => Err(e),
            Ok((minor, at1)) => match spec_read_u16(s, at1) {
                Err(e) => Err(e),
                Ok((major, at2)) => Ok((ClassVersion { minor, major }, at2)),
            },
        }
    }

    fn deserialize(cursor: &mut ByteCursor) -> (r: Result<ClassVersion, DeserializationError>) {
        let minor = cursor.read_u16()?;
        let major = cursor.read_u16()?;
        Ok(ClassVersion { minor, major })
    }
}

} // verus!
