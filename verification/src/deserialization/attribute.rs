//! The attributes. An attribute starts with the index of its name and a
//! `u32` length; the name decides how the body is read. The length is read
//! and, but for attributes that are not known, not held against the body.

use crate::attributes::{
    Attribute, AttributeView, ClassAccessSpecifierFlags, ClassEntry, ClassEntryView, CodeAttribute,
    CodeAttributeView, CodeAttributes, CodeAttributesView, ConstValueType, ConstValueView,
    ConstantValueAttribute, DeprecatedAttribute, ExceptionEntry, ExceptionEntryView,
    ExceptionsAttribute, InnerClassesAttribute, LineNumberEntry, LineNumberTableAttribute,
    LocalVariableEntry, LocalVariableEntryView, LocalVariableTableAttribute, SourceFileAttribute,
    SyntheticAttribute, UnknownAttribute, CLASS_ACCESS_SPECIFIER_MASK,
};
use crate::const_pool::{ClassInfo, ConstPoolType, ConstPoolView, Utf8Info};
use crate::deserialization::pool::{deserialize_class_if_any, spec_class_if_any};
use crate::error::{DeserializationError, ErrorView, Parsed};
use crate::flags::only_bits;
use crate::grammar::{
    deserialize_linked_table, deserialize_table, item, linked_item, spec_table, Deserializable,
    DeserializableLinked,
};
use crate::reader::{
    spec_read_bytes, spec_read_u16, spec_read_u32, spec_skip, ByteCursor,
};
use crate::text::same_text;
use vstd::prelude::*;

verus! {

/// The text of the error for access flags with a bit that stands for no
/// flag.
pub open spec fn spec_flag_text() -> Seq<char> {
    "Unable to parse bit flag."@
}

/// A `u16` of flags, none of them outside `mask`.
pub open spec fn spec_flags(s: Seq<u8>, pos: int, mask: u16) -> Parsed<u16> {
    match spec_read_u16(s, pos) {
        Err(e) => Err(e),
        Ok((bits, next)) => if only_bits(bits, mask) {
            Ok((bits, next))
        } else {
            Err(ErrorView::Parsing(spec_flag_text()))
        },
    }
}

impl Deserializable for ClassAccessSpecifierFlags {
    open spec fn grammar(s: Seq<u8>, pos: int) -> Parsed<u16> {
        spec_flags(s, pos, CLASS_ACCESS_SPECIFIER_MASK)
    }

    fn deserialize(cursor: &mut ByteCursor) -> (r: Result<
        ClassAccessSpecifierFlags,
        DeserializationError,
    >) {
        match ClassAccessSpecifierFlags::from_bits(cursor.read_u16()?) {
            Some(flags) => Ok(flags),
            None => Err(DeserializationError::Parsing("Unable to parse bit flag.".to_owned())),
        }
    }
}

impl DeserializableLinked for ConstantValueAttribute {
    open spec fn linked_grammar(s: Seq<u8>, pos: int, pool: Seq<ConstPoolView>) -> Parsed<
        ConstValueView,
    > {
        match spec_read_u32(s, pos) {
            Err(e) => Err(e),
            Ok((_, p)) => ConstValueType::linked_grammar(s, p, pool),
        }
    }

    fn deserialize_link(cursor: &mut ByteCursor, pool: &[ConstPoolType]) -> (r: Result<
        ConstantValueAttribute,
        DeserializationError,
    >) {
        let _ = cursor.read_u32()?;
        let value = ConstValueType::deserialize_link(cursor, pool)?;
        Ok(ConstantValueAttribute { value })
    }
}

impl DeserializableLinked for ExceptionEntry {
    /// Three `u16` positions in the code and the index of the class that is
    /// caught. The index 0 stands for a handler that catches everything;
    /// any other index must name a `Class` entry.
    open spec fn linked_grammar(s: Seq<u8>, pos: int, pool: Seq<ConstPoolView>) -> Parsed<
        ExceptionEntryView,
    > {
        match spec_read_u16(s, pos) {
            Err(e) => Err(e),
            Ok((start_pc, at1)) => match spec_read_u16(s, at1) {
                Err(e) => Err(e),
                Ok((end_pc, at2)) => match spec_read_u16(s, at2) {
                    Err(e) => Err(e),
                    Ok((handler_pc, at3)) => match spec_class_if_any(s, at3, pool) {
                        Err(e) => Err(e),
                        Ok((catch_type, at4)) => Ok(
                            (ExceptionEntryView { start_pc, end_pc, handler_pc, catch_type }, at4),
                        ),
                    },
                },
            },
        }
    }

    fn deserialize_link(cursor: &mut ByteCursor, pool: &[ConstPoolType]) -> (r: Result<
        ExceptionEntry,
        DeserializationError,
    >) {
        let start_pc = cursor.read_u16()?;
        let end_pc = cursor.read_u16()?;
        let handler_pc = cursor.read_u16()?;
        let catch_type = deserialize_class_if_any(cursor, pool)?;
        Ok(ExceptionEntry { start_pc, end_pc, handler_pc, catch_type })
    }
}

impl DeserializableLinked for SourceFileAttribute {
    open spec fn linked_grammar(s: Seq<u8>, pos: int, pool: Seq<ConstPoolView>) -> Parsed<
        Seq<char>,
    > {
        match spec_read_u32(s, pos) {
            Err(e) => Err(e),
            Ok((_, p)) => Utf8Info::linked_grammar(s, p, pool),
        }
    }

    fn deserialize_link(cursor: &mut ByteCursor, pool: &[ConstPoolType]) -> (r: Result<
        SourceFileAttribute,
        DeserializationError,
    >) {
        let _ = cursor.read_u32()?;
        let file = Utf8Info::deserialize_link(cursor, pool)?;
        Ok(SourceFileAttribute { file })
    }
}

impl Deserializable for UnknownAttribute {
    /// The `u32` length and as many bytes as it says, which are dropped.
    open spec fn grammar(s: Seq<u8>, pos: int) -> Parsed<UnknownAttribute> {
        match spec_read_u32(s, pos) {
            Err(e) => Err(e),
            Ok((size, p)) => match spec_skip(s, p, size as int) {
                Err(e) => Err(e),
                Ok((_, q)) => Ok((UnknownAttribute { size }, q)),
            },
        }
    }

    fn deserialize(cursor: &mut ByteCursor) -> (r: Result<UnknownAttribute, DeserializationError>) {
        let size = cursor.read_u32()?;
        cursor.skip(size as usize)?;
        Ok(UnknownAttribute { size })
    }
}

/// The text of the error for a `Synthetic` attribute with a body.
pub open spec fn spec_synthetic_text() -> Seq<char> {
    "Synthetic attribute must be zero-sized"@
}

impl Deserializable for SyntheticAttribute {
    /// The `u32` length, which must be zero.
    open spec fn grammar(s: Seq<u8>, pos: int) -> Parsed<SyntheticAttribute> {
        match spec_read_u32(s, pos) {
            Err(e) => Err(e),
            Ok((size, p)) => if size != 0 {
                Err(ErrorView::Parsing(spec_synthetic_text()))
            } else {
                Ok((SyntheticAttribute {  }, p))
            },
        }
    }

    fn deserialize(cursor: &mut ByteCursor) -> (r: Result<
        SyntheticAttribute,
        DeserializationError,
    >) {
        let size = cursor.read_u32()?;
        if size != 0 {
            return Err(
                DeserializationError::Parsing("Synthetic attribute must be zero-sized".to_owned()),
            );
        }
        Ok(SyntheticAttribute {  })
    }
}

impl Deserializable for DeprecatedAttribute {
    /// The `u32` length, whatever it says. No body is read.
    open spec fn grammar(s: Seq<u8>, pos: int) -> Parsed<DeprecatedAttribute> {
        match spec_read_u32(s, pos) {
            Err(e) => Err(e),
            Ok((_, p)) => Ok((DeprecatedAttribute {  }, p)),
        }
    }

    fn deserialize(cursor: &mut ByteCursor) -> (r: Result<
        DeprecatedAttribute,
        DeserializationError,
    >) {
        let _ = cursor.read_u32()?;
        Ok(DeprecatedAttribute {  })
    }
}

impl DeserializableLinked for LocalVariableEntry {
    open spec fn linked_grammar(s: Seq<u8>, pos: int, pool: Seq<ConstPoolView>) -> Parsed<
        LocalVariableEntryView,
    > {
        match spec_read_u16(s, pos) {
            Err(e) => Err(e),
            Ok((start_pc, at1)) => match spec_read_u16(s, at1) {
                Err(e) => Err(e),
                Ok((length, at2)) => match Utf8Info::linked_grammar(s, at2, pool) {
                    Err(e) => Err(e),
                    Ok((name, at3)) => match Utf8Info::linked_grammar(s, at3, pool) {
                        Err(e) => Err(e),
                        Ok((descriptor, at4)) => match spec_read_u16(s, at4) {
                            Err(e) => Err(e),
                            Ok((index, at5)) => Ok(
                                (
                                    LocalVariableEntryView {
                                        start_pc,
                                        length,
                                        name,
                                        descriptor,
                                        index,
                                    },
                                    at5,
                                ),
                            ),
                        },
                    },
                },
            },
        }
    }

    fn deserialize_link(cursor: &mut ByteCursor, pool: &[ConstPoolType]) -> (r: Result<
        LocalVariableEntry,
        DeserializationError,
    >) {
        let start_pc = cursor.read_u16()?;
        let length = cursor.read_u16()?;
        let name = Utf8Info::deserialize_link(cursor, pool)?;
        let descriptor = Utf8Info::deserialize_link(cursor, pool)?;
        let index = cursor.read_u16()?;
        Ok(LocalVariableEntry { start_pc, length, name, descriptor, index })
    }
}

impl DeserializableLinked for LocalVariableTableAttribute {
    open spec fn linked_grammar(s: Seq<u8>, pos: int, pool: Seq<ConstPoolView>) -> Parsed<
        Seq<LocalVariableEntryView>,
    > {
        match spec_read_u32(s, pos) {
            Err(e) => Err(e),
            Ok((_, p)) => spec_table(linked_item::<LocalVariableEntry>(s, pool), s, p),
        }
    }

    fn deserialize_link(cursor: &mut ByteCursor, pool: &[ConstPoolType]) -> (r: Result<
        LocalVariableTableAttribute,
        DeserializationError,
    >) {
        let _ = cursor.read_u32()?;
        let variables = deserialize_linked_table::<LocalVariableEntry>(cursor, pool)?;
        Ok(LocalVariableTableAttribute { variables })
    }
}

impl Deserializable for LineNumberEntry {
    open spec fn grammar(s: Seq<u8>, pos: int) -> Parsed<LineNumberEntry> {
        match spec_read_u16(s, pos) {
            Err(e) => Err(e),
            Ok((start_pc, at1)) => match spec_read_u16(s, at1) {
                Err(e) => Err(e),
                Ok((line, at2)) => Ok((LineNumberEntry { start_pc, line }, at2)),
            },
        }
    }

    fn deserialize(cursor: &mut ByteCursor) -> (r: Result<LineNumberEntry, DeserializationError>) {
        let start_pc = cursor.read_u16()?;
        let line = cursor.read_u16()?;
        Ok(LineNumberEntry { start_pc, line })
    }
}

impl Deserializable for LineNumberTableAttribute {
    open spec fn grammar(s: Seq<u8>, pos: int) -> Parsed<Seq<LineNumberEntry>> {
        match spec_read_u32(s, pos) {
            Err(e) => Err(e),
            Ok((_, p)) => spec_table(item::<LineNumberEntry>(s), s, p),
        }
    }

    fn deserialize(cursor: &mut ByteCursor) -> (r: Result<
        LineNumberTableAttribute,
        DeserializationError,
    >) {
        let _ = cursor.read_u32()?;
        let lines = deserialize_table::<LineNumberEntry>(cursor)?;
        Ok(LineNumberTableAttribute { lines })
    }
}

impl DeserializableLinked for ExceptionsAttribute {
    open spec fn linked_grammar(s: Seq<u8>, pos: int, pool: Seq<ConstPoolView>) -> Parsed<
        Seq<Seq<char>>,
    > {
        match spec_read_u32(s, pos) {
            Err(e) => Err(e),
            Ok((_, p)) => spec_table(linked_item::<ClassInfo>(s, pool), s, p),
        }
    }

    fn deserialize_link(cursor: &mut ByteCursor, pool: &[ConstPoolType]) -> (r: Result<
        ExceptionsAttribute,
        DeserializationError,
    >) {
        let _ = cursor.read_u32()?;
        let exceptions_classes = deserialize_linked_table::<ClassInfo>(cursor, pool)?;
        Ok(ExceptionsAttribute { exceptions_classes })
    }
}

impl DeserializableLinked for ClassEntry {
    /// The indices of the inner and of the outer class, each of which
    /// names a `Class` entry or is 0 for none, the index of the name, which
    /// must name a `Utf8` entry, and the flags.
    open spec fn linked_grammar(s: Seq<u8>, pos: int, pool: Seq<ConstPoolView>) -> Parsed<
        ClassEntryView,
    > {
        match spec_class_if_any(s, pos, pool) {
            Err(e) => Err(e),
            Ok((inner_class_info, at1)) => match spec_class_if_any(s, at1, pool) {
                Err(e) => Err(e),
                Ok((outer_class_info, at2)) => match Utf8Info::linked_grammar(s, at2, pool) {
                    Err(e) => Err(e),
                    Ok((name, at3)) => match ClassAccessSpecifierFlags::grammar(s, at3) {
                        Err(e) => Err(e),
                        Ok((access, at4)) => Ok(
                            (
                                ClassEntryView { inner_class_info, outer_class_info, name, access },
                                at4,
                            ),
                        ),
                    },
                },
            },
        }
    }

    fn deserialize_link(cursor: &mut ByteCursor, pool: &[ConstPoolType]) -> (r: Result<
        ClassEntry,
        DeserializationError,
    >) {
        let inner_class_info = deserialize_class_if_any(cursor, pool)?;
        let outer_class_info = deserialize_class_if_any(cursor, pool)?;
        let name = Utf8Info::deserialize_link(cursor, pool)?;
        let access = ClassAccessSpecifierFlags::deserialize(cursor)?;
        Ok(ClassEntry { inner_class_info, outer_class_info, name, access })
    }
}

impl DeserializableLinked for InnerClassesAttribute {
    open spec fn linked_grammar(s: Seq<u8>, pos: int, pool: Seq<ConstPoolView>) -> Parsed<
        Seq<ClassEntryView>,
    > {
        match spec_read_u32(s, pos) {
            Err(e) => Err(e),
            Ok((_, p)) => spec_table(linked_item::<ClassEntry>(s, pool), s, p),
        }
    }

    fn deserialize_link(cursor: &mut ByteCursor, pool: &[ConstPoolType]) -> (r: Result<
        InnerClassesAttribute,
        DeserializationError,
    >) {
        let _ = cursor.read_u32()?;
        let classes = deserialize_linked_table::<ClassEntry>(cursor, pool)?;
        Ok(InnerClassesAttribute { classes })
    }
}

impl DeserializableLinked for CodeAttributes {
    /// The index of the name, which must name a `Utf8` entry, and the body
    /// that the name announces. Every name but those of the two tables
    /// announces an attribute that is not known.
    open spec fn linked_grammar(s: Seq<u8>, pos: int, pool: Seq<ConstPoolView>) -> Parsed<
        CodeAttributesView,
    > {
        match Utf8Info::linked_grammar(s, pos, pool) {
            Err(e) => Err(e),
            Ok((name, p)) => if name == "LineNumberTable"@ {
                match LineNumberTableAttribute::grammar(s, p) {
                    Err(e) => Err(e),
                    Ok((table, q)) => Ok((CodeAttributesView::LineNumberTable(table), q)),
                }
            } else if name == "LocalVariableTable"@ {
                match LocalVariableTableAttribute::linked_grammar(s, p, pool) {
                    Err(e) => Err(e),
                    Ok((table, q)) => Ok((CodeAttributesView::LocalVariableTable(table), q)),
                }
            } else {
                match UnknownAttribute::grammar(s, p) {
                    Err(e) => Err(e),
                    Ok((other, q)) => Ok((CodeAttributesView::Unknown(other), q)),
                }
            },
        }
    }

    fn deserialize_link(cursor: &mut ByteCursor, pool: &[ConstPoolType]) -> (r: Result<
        CodeAttributes,
        DeserializationError,
    >) {
        let name = Utf8Info::deserialize_link(cursor, pool)?;
        let text = name.as_str();
        if same_text(text, "LineNumberTable") {
            Ok(CodeAttributes::LineNumberTable(LineNumberTableAttribute::deserialize(cursor)?))
        } else if same_text(text, "LocalVariableTable") {
            Ok(
                CodeAttributes::LocalVariableTable(
                    LocalVariableTableAttribute::deserialize_link(cursor, pool)?,
                ),
            )
        } else {
            Ok(CodeAttributes::Unknown(UnknownAttribute::deserialize(cursor)?))
        }
    }
}

impl DeserializableLinked for CodeAttribute {
    /// The length, the two limits, the `u32` length of the code, which must
    /// not be zero, the code, the table of handlers and the table of
    /// attributes.
    open spec fn linked_grammar(s: Seq<u8>, pos: int, pool: Seq<ConstPoolView>) -> Parsed<
        CodeAttributeView,
    > {
        match spec_read_u32(s, pos) {
            Err(e) => Err(e),
            Ok((_, at1)) => match spec_read_u16(s, at1) {
                Err(e) => Err(e),
                Ok((max_stack, at2)) => match spec_read_u16(s, at2) {
                    Err(e) => Err(e),
                    Ok((max_local, at3)) => match spec_read_u32(s, at3) {
                        Err(e) => Err(e),
                        Ok((code_length, at4)) => if code_length == 0 {
                            Err(ErrorView::Link)
                        } else {
                            match spec_read_bytes(s, at4, code_length as int) {
                                Err(e) => Err(e),
                                Ok((code, at5)) => match spec_table(
                                    linked_item::<ExceptionEntry>(s, pool),
                                    s,
                                    at5,
                                ) {
                                    Err(e) => Err(e),
                                    Ok((exceptions, at6)) => match spec_table(
                                        linked_item::<CodeAttributes>(s, pool),
                                        s,
                                        at6,
                                    ) {
                                        Err(e) => Err(e),
                                        Ok((attributes, at7)) => Ok(
                                            (
                                                CodeAttributeView {
                                                    max_stack,
                                                    max_local,
                                                    code,
                                                    exceptions,
                                                    attributes,
                                                },
                                                at7,
                                            ),
                                        ),
                                    },
                                },
                            }
                        },
                    },
                },
            },
        }
    }

    fn deserialize_link(cursor: &mut ByteCursor, pool: &[ConstPoolType]) -> (r: Result<
        CodeAttribute,
        DeserializationError,
    >) {
        let _ = cursor.read_u32()?;
        let max_stack = cursor.read_u16()?;
        let max_local = cursor.read_u16()?;
        let code_length = cursor.read_u32()?;
        if code_length == 0 {
            return Err(DeserializationError::Link);
        }
        let code = cursor.read_exact(code_length as usize)?;
        let exceptions = deserialize_linked_table::<ExceptionEntry>(cursor, pool)?;
        let attributes = deserialize_linked_table::<CodeAttributes>(cursor, pool)?;
        Ok(CodeAttribute { max_stack, max_local, code, exceptions, attributes })
    }
}

/// Whether the decoder knows an attribute of this name.
pub open spec fn recognized(name: Seq<char>) -> bool {
    ||| name == "Synthetic"@
    ||| name == "SourceFile"@
    ||| name == "LineNumberTable"@
    ||| name == "LocalVariableTable"@
    ||| name == "Deprecated"@
    ||| name == "InnerClasses"@
    ||| name == "Exceptions"@
    ||| name == "Code"@
    ||| name == "ConstantValue"@
}

/// The body of the attribute named `name`.
pub open spec fn spec_attribute_body(
    name: Seq<char>,
    s: Seq<u8>,
    p: int,
    pool: Seq<ConstPoolView>,
) -> Parsed<AttributeView> {
    if name == "Synthetic"@ {
        match SyntheticAttribute::grammar(s, p) {
            Err(e) => Err(e),
            Ok((_, q)) => Ok((AttributeView::Synthetic, q)),
        }
    } else if name == "SourceFile"@ {
        match SourceFileAttribute::linked_grammar(s, p, pool) {
            Err(e) => Err(e),
            Ok((file, q)) => Ok((AttributeView::SourceFile(file), q)),
        }
    } else if name == "LineNumberTable"@ {
        match LineNumberTableAttribute::grammar(s, p) {
            Err(e) => Err(e),
            Ok((table, q)) => Ok((AttributeView::LineNumberTable(table), q)),
        }
    } else if name == "LocalVariableTable"@ {
        match LocalVariableTableAttribute::linked_grammar(s, p, pool) {
            Err(e) => Err(e),
            Ok((table, q)) => Ok((AttributeView::LocalVariableTable(table), q)),
        }
    } else if name == "Deprecated"@ {
        match DeprecatedAttribute::grammar(s, p) {
            Err(e) => Err(e),
            Ok((_, q)) => Ok((AttributeView::Deprecated, q)),
        }
    } else if name == "InnerClasses"@ {
        match InnerClassesAttribute::linked_grammar(s, p, pool) {
            Err(e) => Err(e),
            Ok((classes, q)) => Ok((AttributeView::InnerClasses(classes), q)),
        }
    } else if name == "Exceptions"@ {
        match ExceptionsAttribute::linked_grammar(s, p, pool) {
            Err(e) => Err(e),
            Ok((thrown, q)) => Ok((AttributeView::Exceptions(thrown), q)),
        }
    } else if name == "Code"@ {
        match CodeAttribute::linked_grammar(s, p, pool) {
            Err(e) => Err(e),
            Ok((code, q)) => Ok((AttributeView::Code(code), q)),
        }
    } else if name == "ConstantValue"@ {
        match ConstantValueAttribute::linked_grammar(s, p, pool) {
            Err(e) => Err(e),
            Ok((constant, q)) => Ok((AttributeView::ConstantValue(constant), q)),
        }
    } else {
        match UnknownAttribute::grammar(s, p) {
            Err(e) => Err(e),
            Ok((other, q)) => Ok((AttributeView::Unknown(other), q)),
        }
    }
}

impl DeserializableLinked for Attribute {
    /// The index of the name, which must name a `Utf8` entry, and the body
    /// that the name announces.
    open spec fn linked_grammar(s: Seq<u8>, pos: int, pool: Seq<ConstPoolView>) -> Parsed<
        AttributeView,
    > {
        match Utf8Info::linked_grammar(s, pos, pool) {
            Err(e) => Err(e),
            Ok((name, p)) => spec_attribute_body(name, s, p, pool),
        }
    }

    fn deserialize_link(cursor: &mut ByteCursor, pool: &[ConstPoolType]) -> (r: Result<
        Attribute,
        DeserializationError,
    >) {
        let name = Utf8Info::deserialize_link(cursor, pool)?;
        let text = name.as_str();
        if same_text(text, "Synthetic") {
            Ok(Attribute::Synthetic(SyntheticAttribute::deserialize(cursor)?))
        } else if same_text(text, "SourceFile") {
            Ok(Attribute::SourceFile(SourceFileAttribute::deserialize_link(cursor, pool)?))
        } else if same_text(text, "LineNumberTable") {
            Ok(Attribute::LineNumberTable(LineNumberTableAttribute::deserialize(cursor)?))
        } else if same_text(text, "LocalVariableTable") {
            Ok(
                Attribute::LocalVariableTable(
                    LocalVariableTableAttribute::deserialize_link(cursor, pool)?,
                ),
            )
        } else if same_text(text, "Deprecated") {
            Ok(Attribute::Deprecated(DeprecatedAttribute::deserialize(cursor)?))
        } else if same_text(text, "InnerClasses") {
            Ok(Attribute::InnerClasses(InnerClassesAttribute::deserialize_link(cursor, pool)?))
        } else if same_text(text, "Exceptions") {
            Ok(Attribute::Exceptions(ExceptionsAttribute::deserialize_link(cursor, pool)?))
        } else if same_text(text, "Code") {
            Ok(Attribute::Code(CodeAttribute::deserialize_link(cursor, pool)?))
        } else if same_text(text, "ConstantValue") {
            Ok(Attribute::ConstantValue(ConstantValueAttribute::deserialize_link(cursor, pool)?))
        } else {
            Ok(Attribute::Unknown(UnknownAttribute::deserialize(cursor)?))
        }
    }
}

} // verus!
