use class_parser::attributes::{Attribute, CodeAttributes, LineNumberEntry};
use class_parser::components::{AccessSpecifier, ClassAccess, ClassAccessFlags};
use class_parser::const_pool::ConstPoolType;
use class_parser::deserialization::{deserializable_class, deserialize_prefix, Progress};
use class_parser::DeserializationError;

fn u16_be(out: &mut Vec<u8>, v: u16) {
    out.push((v >> 8) as u8);
    out.push(v as u8);
}

fn u32_be(out: &mut Vec<u8>, v: u32) {
    u16_be(out, (v >> 16) as u16);
    u16_be(out, v as u16);
}

fn utf8(out: &mut Vec<u8>, text: &str) {
    out.push(1);
    u16_be(out, text.len() as u16);
    out.extend_from_slice(text.as_bytes());
}

fn pair(out: &mut Vec<u8>, tag: u8, a: u16, b: u16) {
    out.push(tag);
    u16_be(out, a);
    u16_be(out, b);
}

fn single(out: &mut Vec<u8>, tag: u8, a: u16) {
    out.push(tag);
    u16_be(out, a);
}

/// The class file that `javac --release 11` writes for a `HelloWorld` with
/// a `main` that prints one line.
fn hello_world() -> Vec<u8> {
    hello_world_and_body().0
}

/// The same class file, and the position of its access flags, which stand
/// right behind the constant pool.
fn hello_world_and_body() -> (Vec<u8>, usize) {
    let mut b = Vec::new();
    u32_be(&mut b, 0xCAFEBABE);
    u16_be(&mut b, 0);
    u16_be(&mut b, 55);
    u16_be(&mut b, 29);
    pair(&mut b, 10, 6, 15);
    pair(&mut b, 9, 16, 17);
    single(&mut b, 8, 18);
    pair(&mut b, 10, 19, 20);
    single(&mut b, 7, 21);
    single(&mut b, 7, 22);
    utf8(&mut b, "<init>");
    utf8(&mut b, "()V");
    utf8(&mut b, "Code");
    utf8(&mut b, "LineNumberTable");
    utf8(&mut b, "main");
    utf8(&mut b, "([Ljava/lang/String;)V");
    utf8(&mut b, "SourceFile");
    utf8(&mut b, "HelloWorld.java");
    pair(&mut b, 12, 7, 8);
    single(&mut b, 7, 23);
    pair(&mut b, 12, 24, 25);
    utf8(&mut b, "Hello, World!");
    single(&mut b, 7, 26);
    pair(&mut b, 12, 27, 28);
    utf8(&mut b, "HelloWorld");
    utf8(&mut b, "java/lang/Object");
    utf8(&mut b, "java/lang/System");
    utf8(&mut b, "out");
    utf8(&mut b, "Ljava/io/PrintStream;");
    utf8(&mut b, "java/io/PrintStream");
    utf8(&mut b, "println");
    utf8(&mut b, "(Ljava/lang/String;)V");
    let body = b.len();
    u16_be(&mut b, 0x0021);
    u16_be(&mut b, 5);
    u16_be(&mut b, 6);
    u16_be(&mut b, 0);
    u16_be(&mut b, 0);
    u16_be(&mut b, 2);
    // <init>
    u16_be(&mut b, 0x0001);
    u16_be(&mut b, 7);
    u16_be(&mut b, 8);
    u16_be(&mut b, 1);
    u16_be(&mut b, 9);
    u32_be(&mut b, 29);
    u16_be(&mut b, 1);
    u16_be(&mut b, 1);
    u32_be(&mut b, 5);
    b.extend_from_slice(&[0x2a, 0xb7, 0x00, 0x01, 0xb1]);
    u16_be(&mut b, 0);
    u16_be(&mut b, 1);
    u16_be(&mut b, 10);
    u32_be(&mut b, 6);
    u16_be(&mut b, 1);
    u16_be(&mut b, 0);
    u16_be(&mut b, 1);
    // main
    u16_be(&mut b, 0x0009);
    u16_be(&mut b, 11);
    u16_be(&mut b, 12);
    u16_be(&mut b, 1);
    u16_be(&mut b, 9);
    u32_be(&mut b, 37);
    u16_be(&mut b, 2);
    u16_be(&mut b, 1);
    u32_be(&mut b, 9);
    b.extend_from_slice(&[0xb2, 0x00, 0x02, 0x12, 0x03, 0xb6, 0x00, 0x04, 0xb1]);
    u16_be(&mut b, 0);
    u16_be(&mut b, 1);
    u16_be(&mut b, 10);
    u32_be(&mut b, 10);
    u16_be(&mut b, 2);
    u16_be(&mut b, 0);
    u16_be(&mut b, 3);
    u16_be(&mut b, 8);
    u16_be(&mut b, 4);
    // class attributes
    u16_be(&mut b, 1);
    u16_be(&mut b, 13);
    u32_be(&mut b, 2);
    u16_be(&mut b, 14);
    (b, body)
}

#[test]
fn load_simple_class_file() {
    let bytes = hello_world();
    let class = deserializable_class(&bytes).unwrap();
    assert_eq!(class.version.major, 55);
    assert_eq!(class.version.minor, 0);
    assert_eq!(class.super_class.as_ref().unwrap().0.as_str(), "java/lang/Object");
    assert_eq!(class.this_class.0.as_str(), "HelloWorld");
    assert_eq!(class.const_pool.len(), 28);
    assert_eq!(class.methods.len(), 2);
    assert_eq!(class.fields.len(), 0);
    assert_eq!(class.interfaces.len(), 0);
    assert_eq!(class.attributes.len(), 1);
    assert_eq!(
        class.access,
        ClassAccessFlags::empty().with(ClassAccess::Public).with(ClassAccess::Super)
    );
}

#[test]
fn hello_world_pool_is_linked() {
    let class = deserializable_class(&hello_world()).unwrap();
    match &class.const_pool[0] {
        ConstPoolType::MethodRef(member) => {
            assert_eq!(member.class.0.as_str(), "java/lang/Object");
            assert_eq!(member.name_and_type.name.as_str(), "<init>");
            assert_eq!(member.name_and_type.descriptor.as_str(), "()V");
        }
        other => panic!("unexpected entry {:?}", other),
    }
    match &class.const_pool[1] {
        ConstPoolType::Field(member) => {
            assert_eq!(member.class.0.as_str(), "java/lang/System");
            assert_eq!(member.name_and_type.name.as_str(), "out");
            assert_eq!(member.name_and_type.descriptor.as_str(), "Ljava/io/PrintStream;");
        }
        other => panic!("unexpected entry {:?}", other),
    }
    match &class.const_pool[2] {
        ConstPoolType::String(text) => assert_eq!(text.as_str(), "Hello, World!"),
        other => panic!("unexpected entry {:?}", other),
    }
    match &class.const_pool[4] {
        ConstPoolType::Class(info) => assert_eq!(info.0.as_str(), "HelloWorld"),
        other => panic!("unexpected entry {:?}", other),
    }
    match &class.const_pool[14] {
        ConstPoolType::NameAndType(pair) => {
            assert_eq!(pair.name.as_str(), "<init>");
            assert_eq!(pair.descriptor.as_str(), "()V");
        }
        other => panic!("unexpected entry {:?}", other),
    }
}

#[test]
fn hello_world_methods_are_decoded() {
    let class = deserializable_class(&hello_world()).unwrap();
    let init = &class.methods[0];
    assert_eq!(init.name.as_str(), "<init>");
    assert_eq!(init.descriptor.as_str(), "()V");
    assert_eq!(init.access.bits(), 0x0001);
    assert!(init.access.contains(AccessSpecifier::Public));
    assert!(!init.access.contains(AccessSpecifier::Static));
    let main = &class.methods[1];
    assert_eq!(main.name.as_str(), "main");
    assert_eq!(main.access.bits(), 0x0009);
    assert!(main.access.contains(AccessSpecifier::Static));
    assert_eq!(main.attributes.len(), 1);
    match &main.attributes[0] {
        Attribute::Code(code) => {
            assert_eq!(code.max_stack, 2);
            assert_eq!(code.max_local, 1);
            assert_eq!(code.code, vec![0xb2, 0x00, 0x02, 0x12, 0x03, 0xb6, 0x00, 0x04, 0xb1]);
            assert_eq!(code.exceptions.len(), 0);
            assert_eq!(code.attributes.len(), 1);
            match &code.attributes[0] {
                CodeAttributes::LineNumberTable(table) => {
                    assert_eq!(
                        table.lines,
                        vec![
                            LineNumberEntry { start_pc: 0, line: 3 },
                            LineNumberEntry { start_pc: 8, line: 4 },
                        ]
                    );
                }
                other => panic!("unexpected attribute {:?}", other),
            }
        }
        other => panic!("unexpected attribute {:?}", other),
    }
    match &class.attributes[0] {
        Attribute::SourceFile(source) => assert_eq!(source.file.as_str(), "HelloWorld.java"),
        other => panic!("unexpected attribute {:?}", other),
    }
}

#[test]
fn bytes_behind_the_class_are_ignored() {
    let mut bytes = hello_world();
    let plain = deserializable_class(&bytes).unwrap();
    bytes.extend_from_slice(&[0xff, 0x00, 0x12]);
    assert_eq!(deserializable_class(&bytes).unwrap(), plain);
}

#[test]
fn wrong_magic_is_a_parsing_error() {
    let mut bytes = hello_world();
    bytes[3] = 0xBF;
    assert_eq!(
        deserializable_class(&bytes),
        Err(DeserializationError::Parsing("Its not JVM class file.".to_string()))
    );
    assert_eq!(
        deserializable_class(&[0, 0, 0, 0]),
        Err(DeserializationError::Parsing("Its not JVM class file.".to_string()))
    );
}

#[test]
fn every_truncation_cannot_be_read() {
    let bytes = hello_world();
    for cut in 0..bytes.len() {
        assert_eq!(
            deserializable_class(&bytes[..cut]),
            Err(DeserializationError::CannotRead),
            "cut at {}",
            cut
        );
    }
}

#[test]
fn class_flag_outside_the_set_is_a_parsing_error() {
    let (mut bytes, at) = hello_world_and_body();
    assert_eq!(&bytes[at..at + 2], &[0x00, 0x21]);
    bytes[at + 1] = 0x23;
    assert_eq!(
        deserializable_class(&bytes),
        Err(DeserializationError::Parsing("Unable to parse bit flag.".to_string()))
    );
    bytes[at] = 0x10;
    bytes[at + 1] = 0x21;
    assert_eq!(
        deserializable_class(&bytes),
        Err(DeserializationError::Parsing("Unable to parse bit flag.".to_string()))
    );
}

#[test]
fn member_flag_outside_the_set_is_a_parsing_error() {
    let (mut bytes, body) = hello_world_and_body();
    let at = body + 12;
    assert_eq!(&bytes[at..at + 2], &[0x00, 0x01]);
    bytes[at + 1] = 0x21;
    assert_eq!(
        deserializable_class(&bytes),
        Err(DeserializationError::Parsing("Unable to parse bit flag.".to_string()))
    );
}

#[test]
fn this_class_must_name_a_class() {
    let (mut bytes, body) = hello_world_and_body();
    let at = body + 2;
    assert_eq!(&bytes[at..at + 2], &[0x00, 0x05]);
    bytes[at + 1] = 0;
    assert_eq!(deserializable_class(&bytes), Err(DeserializationError::Link));
    bytes[at + 1] = 7;
    assert_eq!(deserializable_class(&bytes), Err(DeserializationError::Link));
    bytes[at + 1] = 29;
    assert_eq!(deserializable_class(&bytes), Err(DeserializationError::Link));
    bytes[at + 1] = 6;
    assert_eq!(deserializable_class(&bytes).unwrap().this_class.0.as_str(), "java/lang/Object");
}

#[test]
fn super_class_index_zero_is_no_super_class() {
    let (mut bytes, body) = hello_world_and_body();
    let at = body + 4;
    assert_eq!(&bytes[at..at + 2], &[0x00, 0x06]);
    bytes[at + 1] = 0;
    let class = deserializable_class(&bytes).unwrap();
    assert_eq!(class.super_class, None);
    assert_eq!(class.this_class.0.as_str(), "HelloWorld");
    assert_eq!(class.methods.len(), 2);
}

#[test]
fn super_class_that_does_not_link_is_no_super_class() {
    let (mut bytes, body) = hello_world_and_body();
    let at = body + 4;
    bytes[at + 1] = 7;
    assert_eq!(deserializable_class(&bytes).unwrap().super_class, None);
    bytes[at] = 0x01;
    assert_eq!(deserializable_class(&bytes).unwrap().super_class, None);
}

/// A class file with the pool slots 1 to 4 (`A`, the class `A`,
/// `java/lang/Object`, the class `java/lang/Object`), then the slots of
/// `more`, which count as `more_slots`, and the tables given.
fn class_file(
    more: &[u8],
    more_slots: u16,
    super_class: u16,
    fields: &[u8],
    methods: &[u8],
    attributes: &[u8],
) -> Vec<u8> {
    let mut b = Vec::new();
    u32_be(&mut b, 0xCAFEBABE);
    u16_be(&mut b, 3);
    u16_be(&mut b, 45);
    u16_be(&mut b, 5 + more_slots);
    utf8(&mut b, "A");
    single(&mut b, 7, 1);
    utf8(&mut b, "java/lang/Object");
    single(&mut b, 7, 3);
    b.extend_from_slice(more);
    u16_be(&mut b, 0x0001);
    u16_be(&mut b, 2);
    u16_be(&mut b, super_class);
    u16_be(&mut b, 0);
    b.extend_from_slice(fields);
    b.extend_from_slice(methods);
    b.extend_from_slice(attributes);
    b
}

#[test]
fn the_smallest_class_decodes() {
    let bytes = class_file(&[], 0, 4, &[0, 0], &[0, 0], &[0, 0]);
    let class = deserializable_class(&bytes).unwrap();
    assert_eq!(class.version.minor, 3);
    assert_eq!(class.version.major, 45);
    assert_eq!(class.const_pool.len(), 4);
    assert_eq!(class.access.bits(), 1);
    assert_eq!(class.this_class.0.as_str(), "A");
    assert_eq!(class.super_class.as_ref().unwrap().0.as_str(), "java/lang/Object");
    assert!(class.interfaces.is_empty());
    assert!(class.fields.is_empty());
    assert!(class.methods.is_empty());
    assert!(class.attributes.is_empty());
}

#[test]
fn the_root_class_has_no_super_class() {
    let bytes = class_file(&[], 0, 0, &[0, 0], &[0, 0], &[0, 0]);
    let class = deserializable_class(&bytes).unwrap();
    assert_eq!(class.super_class, None);
    assert_eq!(class.this_class.0.as_str(), "A");
}

#[test]
fn synthetic_attribute_with_a_body_is_a_parsing_error() {
    let mut more = Vec::new();
    utf8(&mut more, "Synthetic");
    let bytes = class_file(&more, 1, 4, &[0, 0], &[0, 0], &[0, 1, 0, 5, 0, 0, 0, 1, 0]);
    assert_eq!(
        deserializable_class(&bytes),
        Err(DeserializationError::Parsing("Synthetic attribute must be zero-sized".to_string()))
    );
    let bytes = class_file(&more, 1, 4, &[0, 0], &[0, 0], &[0, 1, 0, 5, 0, 0, 0, 0]);
    assert_eq!(deserializable_class(&bytes).unwrap().attributes.len(), 1);
}

#[test]
fn a_long_reserves_the_slot_behind_it() {
    let mut more = vec![5u8, 0, 0, 0, 0, 0, 0, 0x01, 0x00];
    utf8(&mut more, "behind");
    let bytes = class_file(&more, 3, 4, &[0, 0], &[0, 0], &[0, 0]);
    let class = deserializable_class(&bytes).unwrap();
    assert_eq!(class.const_pool.len(), 7);
    assert_eq!(class.const_pool[4], ConstPoolType::Long(256));
    assert_eq!(class.const_pool[5], ConstPoolType::Reserved);
    match &class.const_pool[6] {
        ConstPoolType::Utf8(text) => assert_eq!(text.as_str(), "behind"),
        other => panic!("unexpected entry {:?}", other),
    }
}

#[test]
fn a_long_counted_as_one_slot_does_not_decode() {
    let mut more = vec![5u8, 0, 0, 0, 0, 0, 0, 0x01, 0x00];
    utf8(&mut more, "behind");
    let bytes = class_file(&more, 2, 4, &[0, 0], &[0, 0], &[0, 0]);
    assert!(deserializable_class(&bytes).is_err());
}

#[test]
fn a_handle_to_the_slot_behind_a_long_is_a_link_error() {
    let mut more = vec![5u8, 0, 0, 0, 0, 0, 0, 0x01, 0x00];
    single(&mut more, 8, 6);
    let bytes = class_file(&more, 3, 4, &[0, 0], &[0, 0], &[0, 0]);
    assert_eq!(deserializable_class(&bytes), Err(DeserializationError::Link));
    let mut more = vec![6u8, 0, 0, 0, 0, 0, 0, 0x01, 0x00];
    single(&mut more, 7, 6);
    let bytes = class_file(&more, 3, 4, &[0, 0], &[0, 0], &[0, 0]);
    assert_eq!(deserializable_class(&bytes), Err(DeserializationError::Link));
}

#[test]
fn code_of_length_zero_is_a_link_error() {
    let mut more = Vec::new();
    utf8(&mut more, "Code");
    utf8(&mut more, "m");
    utf8(&mut more, "()V");
    let mut methods = vec![0u8, 1, 0, 1, 0, 6, 0, 7, 0, 1];
    methods.extend_from_slice(&[0, 5, 0, 0, 0, 12, 0, 1, 0, 1, 0, 0, 0, 0, 0, 0, 0, 0]);
    let bytes = class_file(&more, 3, 4, &[0, 0], &methods, &[0, 0]);
    assert_eq!(deserializable_class(&bytes), Err(DeserializationError::Link));
    let mut methods = vec![0u8, 1, 0, 1, 0, 6, 0, 7, 0, 1];
    methods.extend_from_slice(&[0, 5, 0, 0, 0, 13, 0, 1, 0, 1, 0, 0, 0, 1, 0xb1, 0, 0, 0, 0]);
    let bytes = class_file(&more, 3, 4, &[0, 0], &methods, &[0, 0]);
    let class = deserializable_class(&bytes).unwrap();
    match &class.methods[0].attributes[0] {
        Attribute::Code(code) => assert_eq!(code.code, vec![0xb1]),
        other => panic!("unexpected attribute {:?}", other),
    }
}

#[test]
fn constant_value_that_names_a_name_and_type_is_a_link_error() {
    let mut more = Vec::new();
    utf8(&mut more, "ConstantValue");
    utf8(&mut more, "f");
    utf8(&mut more, "I");
    pair(&mut more, 12, 6, 7);
    more.extend_from_slice(&[3, 0, 0, 0, 42]);
    let mut fields = vec![0u8, 1, 0, 0x18, 0, 6, 0, 7, 0, 1];
    fields.extend_from_slice(&[0, 5, 0, 0, 0, 2, 0, 8]);
    let bytes = class_file(&more, 5, 4, &fields, &[0, 0], &[0, 0]);
    assert_eq!(deserializable_class(&bytes), Err(DeserializationError::Link));
    let mut fields = vec![0u8, 1, 0, 0x18, 0, 6, 0, 7, 0, 1];
    fields.extend_from_slice(&[0, 5, 0, 0, 0, 2, 0, 9]);
    let bytes = class_file(&more, 5, 4, &fields, &[0, 0], &[0, 0]);
    let class = deserializable_class(&bytes).unwrap();
    assert_eq!(class.fields.len(), 1);
    assert_eq!(class.fields[0].name.as_str(), "f");
    match &class.fields[0].attributes[0] {
        Attribute::ConstantValue(constant) => {
            assert_eq!(constant.value, class_parser::attributes::ConstValueType::Int(42))
        }
        other => panic!("unexpected attribute {:?}", other),
    }
}

#[test]
fn an_attribute_that_is_not_known_is_kept_with_its_length() {
    let mut more = Vec::new();
    utf8(&mut more, "RuntimeVisibleAnnotations");
    utf8(&mut more, "Deprecated");
    let attributes = [0u8, 2, 0, 5, 0, 0, 0, 4, 9, 8, 7, 6, 0, 6, 0, 0, 0, 0];
    let bytes = class_file(&more, 2, 4, &[0, 0], &[0, 0], &attributes);
    let class = deserializable_class(&bytes).unwrap();
    assert_eq!(
        class.attributes,
        vec![
            Attribute::Unknown(class_parser::attributes::UnknownAttribute { size: 4 }),
            Attribute::Deprecated(class_parser::attributes::DeprecatedAttribute {}),
        ]
    );
}

#[test]
fn interfaces_are_classes() {
    let mut bytes = class_file(&[], 0, 4, &[], &[], &[]);
    let at = bytes.len() - 2;
    bytes.truncate(at);
    bytes.extend_from_slice(&[0, 2, 0, 4, 0, 2, 0, 0, 0, 0, 0, 0]);
    let class = deserializable_class(&bytes).unwrap();
    assert_eq!(class.interfaces.len(), 2);
    assert_eq!(class.interfaces[0].0.as_str(), "java/lang/Object");
    assert_eq!(class.interfaces[1].0.as_str(), "A");
    let at = bytes.len() - 9;
    bytes[at] = 1;
    assert_eq!(deserializable_class(&bytes), Err(DeserializationError::Link));
    bytes[at] = 0;
    assert_eq!(deserializable_class(&bytes), Err(DeserializationError::Link));
}

#[test]
fn text_in_the_pool_that_is_not_utf8_is_an_encoding_error() {
    let more = [1u8, 0, 2, 0xc0, 0x80];
    let bytes = class_file(&more, 1, 4, &[0, 0], &[0, 0], &[0, 0]);
    assert!(matches!(deserializable_class(&bytes), Err(DeserializationError::Encoding(_))));
}

#[test]
fn an_unknown_tag_in_the_pool_is_a_parsing_error() {
    let more = [15u8, 1, 0, 2];
    let bytes = class_file(&more, 1, 4, &[0, 0], &[0, 0], &[0, 0]);
    assert_eq!(
        deserializable_class(&bytes),
        Err(DeserializationError::Parsing("Invalid const pool type id: 15".to_string()))
    );
}

#[test]
fn a_cut_class_with_a_flaw_fails_as_the_whole_or_cannot_be_read() {
    let mut more = Vec::new();
    utf8(&mut more, "Synthetic");
    let bytes = class_file(&more, 1, 4, &[0, 0], &[0, 0], &[0, 1, 0, 5, 0, 0, 0, 1, 0]);
    let whole = deserializable_class(&bytes);
    assert!(matches!(whole, Err(DeserializationError::Parsing(_))));
    for cut in 0..bytes.len() {
        let short = deserializable_class(&bytes[..cut]);
        assert!(short == whole || short == Err(DeserializationError::CannotRead), "cut at {}", cut);
    }
    assert_eq!(deserializable_class(&bytes[..bytes.len() - 1]), whole);
    assert_eq!(
        deserializable_class(&bytes[..bytes.len() - 2]),
        Err(DeserializationError::CannotRead)
    );
}

#[test]
fn a_prefix_tells_whether_the_class_is_whole() {
    let mut bytes = hello_world();
    let whole = deserializable_class(&bytes).unwrap();
    let length = bytes.len();
    for cut in 0..length {
        assert_eq!(deserialize_prefix(&bytes[..cut]), Progress::Incomplete, "cut at {}", cut);
    }
    match deserialize_prefix(&bytes) {
        Progress::Complete(class, used) => {
            assert_eq!(class, whole);
            assert_eq!(used, length);
        }
        other => panic!("unexpected outcome {:?}", other),
    }
    bytes.extend_from_slice(&[1, 2, 3]);
    match deserialize_prefix(&bytes) {
        Progress::Complete(class, used) => {
            assert_eq!(class, whole);
            assert_eq!(used, length);
        }
        other => panic!("unexpected outcome {:?}", other),
    }
}

#[test]
fn a_prefix_with_a_flaw_has_failed_whatever_follows() {
    assert_eq!(
        deserialize_prefix(&[0xCA, 0xFE, 0xBA, 0xBF]),
        Progress::Failed(DeserializationError::Parsing("Its not JVM class file.".to_string()))
    );
    assert_eq!(deserialize_prefix(&[0xCA, 0xFE, 0xBA]), Progress::Incomplete);
    assert_eq!(deserialize_prefix(&[]), Progress::Incomplete);
    let (mut bytes, body) = hello_world_and_body();
    bytes[body + 3] = 7;
    assert_eq!(deserialize_prefix(&bytes), Progress::Failed(DeserializationError::Link));
    assert_eq!(
        deserialize_prefix(&bytes[..body + 4]),
        Progress::Failed(DeserializationError::Link)
    );
    assert_eq!(deserialize_prefix(&bytes[..body + 3]), Progress::Incomplete);
}
