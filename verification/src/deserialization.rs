//! Decoding a class file: the constant pool, the attributes, the members
//! and the class itself.

pub mod attribute;
pub mod member;
pub mod pool;

use crate::attributes::Attribute;
use crate::class::{Class, ClassView};
use crate::components::{ClassAccessFlags, ClassVersion, ComponentInfo};
use crate::const_pool::{ClassInfo, ConstPoolView};
use crate::deserialization::pool::{
    deserialize_const_pool, deserialize_super_class, spec_const_pool, spec_super_class,
};
use crate::error::{DeserializationError, ErrorView, Parsed};
use crate::grammar::{
    deserialize_linked_table, linked_item, spec_table, Deserializable, DeserializableLinked,
};
use crate::reader::{spec_be_u32, spec_read_u32, ByteCursor};
use vstd::prelude::*;

verus! {

/// The four bytes that every class file starts with.
pub const MAGIC: u32 = 0xCAFEBABE;

/// The text of the error for an input that does not start with the magic
/// number.
pub open spec fn spec_magic_text() -> Seq<char> {
    "Its not JVM class file."@
}

impl Deserializable for Class {
    /// The magic number, the version, the constant pool, the flags, the
    /// class itself, its superclass, and the tables of interfaces, fields,
    /// methods and attributes.
    ///
    /// The index of the class itself must name a `Class` entry. The index
    /// of the superclass names one, or the class has no superclass.
    open spec fn grammar(s: Seq<u8>, pos: int) -> Parsed<ClassView> {
        match spec_read_u32(s, pos) {
            Err(e) => Err(e),
            Ok((magic, at1)) => if magic != MAGIC {
                Err(ErrorView::Parsing(spec_magic_text()))
            } else {
                match ClassVersion::grammar(s, at1) {
                    Err(e) => Err(e),
                    Ok((version, at2)) => match spec_const_pool(s, at2) {
                        Err(e) => Err(e),
                        Ok((const_pool, at3)) => spec_class_body(s, at3, version, const_pool),
                    },
                }
            },
        }
    }

    fn deserialize(cursor: &mut ByteCursor) -> (r: Result<Class, DeserializationError>) {
        let magic = cursor.read_u32()?;
        if magic != MAGIC {
            return Err(DeserializationError::Parsing("Its not JVM class file.".to_owned()));
        }
        let version = ClassVersion::deserialize(cursor)?;
        let const_pool = deserialize_const_pool(cursor)?;
        let access = ClassAccessFlags::deserialize(cursor)?;
        let this_class = ClassInfo::deserialize_link(cursor, const_pool.as_slice())?;
        let super_class = deserialize_super_class(cursor, const_pool.as_slice())?;
        let interfaces = deserialize_linked_table::<ClassInfo>(cursor, const_pool.as_slice())?;
        let fields = deserialize_linked_table::<ComponentInfo>(cursor, const_pool.as_slice())?;
        let methods = deserialize_linked_table::<ComponentInfo>(cursor, const_pool.as_slice())?;
        let attributes = deserialize_linked_table::<Attribute>(cursor, const_pool.as_slice())?;
        Ok(
            Class {
                version,
                const_pool,
                access,
                this_class,
                super_class,
                interfaces,
                fields,
                methods,
                attributes,
            },
        )
    }
}

/// What follows the constant pool in a class file.
pub open spec fn spec_class_body(
    s: Seq<u8>,
    pos: int,
    version: ClassVersion,
    const_pool: Seq<ConstPoolView>,
) -> Parsed<ClassView> {
    match ClassAccessFlags::grammar(s, pos) {
        Err(e) => Err(e),
        Ok((access, at1)) => match ClassInfo::linked_grammar(s, at1, const_pool) {
            Err(e) => Err(e),
            Ok((this_class, at2)) => match spec_super_class(s, at2, const_pool) {
                Err(e) => Err(e),
                Ok((super_class, at3)) => match spec_table(
                    linked_item::<ClassInfo>(s, const_pool),
                    s,
                    at3,
                ) {
                    Err(e) => Err(e),
                    Ok((interfaces, at4)) => match spec_table(
                        linked_item::<ComponentInfo>(s, const_pool),
                        s,
                        at4,
                    ) {
                        Err(e) => Err(e),
                        Ok((fields, at5)) => match spec_table(
                            linked_item::<ComponentInfo>(s, const_pool),
                            s,
                            at5,
                        ) {
                            Err(e) => Err(e),
                            Ok((methods, at6)) => match spec_table(
                                linked_item::<Attribute>(s, const_pool),
                                s,
                                at6,
                            ) {
                                Err(e) => Err(e),
                                Ok((attributes, at7)) => Ok(
                                    (
                                        ClassView {
                                            version,
                                            const_pool,
                                            access,
                                            this_class,
                                            super_class,
                                            interfaces,
                                            fields,
                                            methods,
                                            attributes,
                                        },
                                        at7,
                                    ),
                                ),
                            },
                        },
                    },
                },
            },
        },
    }
}

/// The class that the bytes `s` hold from their start on, or the first
/// error that decoding them meets. Bytes behind the class are not looked
/// at.
pub open spec fn spec_class(s: Seq<u8>) -> Result<ClassView, ErrorView> {
    match Class::grammar(s, 0) {
        Err(e) => Err(e),
        Ok((class, _)) => Ok(class),
    }
}

/// Whether `s` holds four bytes or more and the first four are not the
/// magic number.
pub open spec fn starts_with_other_magic(s: Seq<u8>) -> bool {
    s.len() >= 4 && spec_be_u32(s.subrange(0, 4)) != MAGIC
}

/// Decodes the class file that `bytes` starts with.
pub fn deserializable_class(bytes: &[u8]) -> (r: Result<Class, DeserializationError>)
    ensures
        match spec_class(bytes@) {
            Ok(class) => r matches Ok(decoded) && decoded.deep_view() == class,
            Err(e) => r matches Err(error) && error.deep_view() == e,
        },
        starts_with_other_magic(bytes@) ==> (r matches Err(error) && error.deep_view()
            == ErrorView::Parsing(spec_magic_text())),
{
    let mut cursor = ByteCursor::new(bytes);
    Class::deserialize(&mut cursor)
}

/// What the first bytes of a stream tell of the class file that the
/// stream holds.
#[derive(Debug, PartialEq, Eq)]
pub enum Progress {
    /// The class, and the number of bytes that it takes. Whatever follows
    /// in the stream does not belong to it.
    Complete(Class, usize),
    /// The bytes end inside the class file. More of the stream is needed.
    Incomplete,
    /// The bytes hold a flaw. Whatever follows in the stream, the decode
    /// fails with this error.
    Failed(DeserializationError),
}

/// Decodes the class file that `bytes` starts with and tells how many
/// bytes it takes, or tells that `bytes` ends inside it.
pub fn deserialize_prefix(bytes: &[u8]) -> (r: Progress)
    ensures
        match Class::grammar(bytes@, 0) {
            Ok((class, end)) => r matches Progress::Complete(decoded, used) && decoded.deep_view()
                == class && used == end,
            Err(ErrorView::CannotRead) => r is Incomplete,
            Err(e) => r matches Progress::Failed(error) && error.deep_view() == e,
        },
{
    let mut cursor = ByteCursor::new(bytes);
    match Class::deserialize(&mut cursor) {
        Ok(class) => {
            let used = cursor.consumed();
            Progress::Complete(class, used)
        },
        Err(DeserializationError::CannotRead) => Progress::Incomplete,
        Err(e) => Progress::Failed(e),
    }
}

} // verus!
