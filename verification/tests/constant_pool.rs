use class_parser::attributes::ConstValueType;
use class_parser::const_pool::{ClassInfo, ConstPoolType, Utf8Info};
use class_parser::deserialization::pool::{
    deserialize_class_if_any, deserialize_const_pool, deserialize_index, deserialize_pool_slots,
    deserialize_super_class, find_const_pool_element,
};
use class_parser::grammar::{Deserializable, DeserializableLinked};
use class_parser::proxy::{
    get_real_index, resolve_all, resolve_double_proxy, resolve_simple_proxy, ClassProxy,
    DoubleProxy, FieldRefProxy, InterfaceMethodRefProxy, MethodRefProxy, NameAndTypeProxy, Proxy,
    ProxyConstPoolType, ProxyToProxyClass, ProxyToProxyNameAndType, ResolveProxy, StringProxy,
};
use class_parser::reader::ByteCursor;
use class_parser::DeserializationError;
use std::rc::Rc;

fn text_slot(text: &str) -> ProxyConstPoolType {
    ProxyConstPoolType::Value(ConstPoolType::Utf8(Rc::new(text.to_string())))
}

/// Slots 1 to 6: a name, a descriptor, a class named by slot 1, the pair
/// of slots 1 and 2, a field of that class with that pair, and a number.
fn small_pool() -> Vec<ProxyConstPoolType> {
    vec![
        text_slot("Thing"),
        text_slot("I"),
        ProxyConstPoolType::Class(ClassProxy(Proxy(1))),
        ProxyConstPoolType::NameAndType(NameAndTypeProxy { name: Proxy(1), descriptor: Proxy(2) }),
        ProxyConstPoolType::FieldRef(FieldRefProxy(DoubleProxy {
            class: ProxyToProxyClass(3),
            name_and_type: ProxyToProxyNameAndType(4),
        })),
        ProxyConstPoolType::Value(ConstPoolType::Int(7)),
    ]
}

fn parsing(text: &str) -> DeserializationError {
    DeserializationError::Parsing(text.to_string())
}

#[test]
fn index_zero_names_no_slot() {
    assert_eq!(get_real_index(0), Err(DeserializationError::Link));
    assert_eq!(get_real_index(1), Ok(0));
    assert_eq!(get_real_index(2), Ok(1));
    assert_eq!(get_real_index(u16::MAX), Ok(u16::MAX - 1));
}

#[test]
fn each_tag_reads_its_entry() {
    let data = [1, 0, 2, b'o', b'k'];
    assert_eq!(ProxyConstPoolType::deserialize(&mut ByteCursor::new(&data)), Ok(text_slot("ok")));
    let data = [3, 0xff, 0xff, 0xff, 0xfe];
    assert_eq!(
        ProxyConstPoolType::deserialize(&mut ByteCursor::new(&data)),
        Ok(ProxyConstPoolType::Value(ConstPoolType::Int(-2)))
    );
    let data = [4, 0x3f, 0x80, 0x00, 0x00];
    assert_eq!(
        ProxyConstPoolType::deserialize(&mut ByteCursor::new(&data)),
        Ok(ProxyConstPoolType::Value(ConstPoolType::Float(1.0f32.to_bits())))
    );
    let data = [5, 0, 0, 0, 1, 0, 0, 0, 2];
    assert_eq!(
        ProxyConstPoolType::deserialize(&mut ByteCursor::new(&data)),
        Ok(ProxyConstPoolType::Value(ConstPoolType::Long(0x1_0000_0002)))
    );
    let data = [6, 0x40, 0x09, 0x21, 0xfb, 0x54, 0x44, 0x2d, 0x18];
    assert_eq!(
        ProxyConstPoolType::deserialize(&mut ByteCursor::new(&data)),
        Ok(ProxyConstPoolType::Value(ConstPoolType::Double(std::f64::consts::PI.to_bits())))
    );
    let data = [7, 0x01, 0x02];
    assert_eq!(
        ProxyConstPoolType::deserialize(&mut ByteCursor::new(&data)),
        Ok(ProxyConstPoolType::Class(ClassProxy(Proxy(0x0102))))
    );
    let data = [8, 0xff, 0xff];
    assert_eq!(
        ProxyConstPoolType::deserialize(&mut ByteCursor::new(&data)),
        Ok(ProxyConstPoolType::String(StringProxy(Proxy(0xffff))))
    );
    let data = [9, 0, 3, 0, 4];
    let double = DoubleProxy {
        class: ProxyToProxyClass(3),
        name_and_type: ProxyToProxyNameAndType(4),
    };
    assert_eq!(
        ProxyConstPoolType::deserialize(&mut ByteCursor::new(&data)),
        Ok(ProxyConstPoolType::FieldRef(FieldRefProxy(double)))
    );
    let data = [10, 0, 3, 0, 4];
    assert_eq!(
        ProxyConstPoolType::deserialize(&mut ByteCursor::new(&data)),
        Ok(ProxyConstPoolType::MethodRef(MethodRefProxy(double)))
    );
    let data = [11, 0, 3, 0, 4];
    assert_eq!(
        ProxyConstPoolType::deserialize(&mut ByteCursor::new(&data)),
        Ok(ProxyConstPoolType::InterfaceMethodRef(InterfaceMethodRefProxy(double)))
    );
    let data = [12, 0, 5, 0, 6];
    assert_eq!(
        ProxyConstPoolType::deserialize(&mut ByteCursor::new(&data)),
        Ok(ProxyConstPoolType::NameAndType(NameAndTypeProxy {
            name: Proxy(5),
            descriptor: Proxy(6)
        }))
    );
}

#[test]
fn every_other_tag_is_a_parsing_error() {
    for tag in 0..=255u8 {
        if tag == 1 || (3..=12).contains(&tag) {
            continue;
        }
        let data = [tag, 0, 0, 0, 0, 0, 0, 0, 0];
        assert_eq!(
            ProxyConstPoolType::deserialize(&mut ByteCursor::new(&data)),
            Err(parsing(&format!("Invalid const pool type id: {}", tag)))
        );
    }
}

#[test]
fn a_short_entry_cannot_be_read() {
    for tag in [1u8, 3, 4, 5, 6, 7, 8, 9, 10, 11, 12] {
        let data = [tag, 0];
        assert_eq!(
            ProxyConstPoolType::deserialize(&mut ByteCursor::new(&data)),
            Err(DeserializationError::CannotRead)
        );
    }
    assert_eq!(
        ProxyConstPoolType::deserialize(&mut ByteCursor::new(&[])),
        Err(DeserializationError::CannotRead)
    );
    let data = [9, 0, 3, 0];
    assert_eq!(
        ProxyConstPoolType::deserialize(&mut ByteCursor::new(&data)),
        Err(DeserializationError::CannotRead)
    );
}

#[test]
fn an_index_of_an_entry_is_kept_as_read_and_must_not_be_zero() {
    let mut cursor = ByteCursor::new(&[0, 1, 0xff, 0xff, 0, 0, 0, 5, 0]);
    assert_eq!(deserialize_index(&mut cursor), Ok(1));
    assert_eq!(deserialize_index(&mut cursor), Ok(0xffff));
    assert_eq!(deserialize_index(&mut cursor), Err(DeserializationError::Link));
    assert_eq!(deserialize_index(&mut cursor), Ok(5));
    assert_eq!(deserialize_index(&mut cursor), Err(DeserializationError::CannotRead));
}

#[test]
fn an_entry_with_index_zero_is_a_link_error_where_it_is_read() {
    for entry in [
        vec![7u8, 0, 0],
        vec![8, 0, 0],
        vec![9, 0, 0, 0, 4],
        vec![9, 0, 3, 0, 0],
        vec![10, 0, 0, 0, 4],
        vec![10, 0, 3, 0, 0],
        vec![11, 0, 0, 0, 4],
        vec![11, 0, 3, 0, 0],
        vec![12, 0, 0, 0, 6],
        vec![12, 0, 5, 0, 0],
    ] {
        assert_eq!(
            ProxyConstPoolType::deserialize(&mut ByteCursor::new(&entry)),
            Err(DeserializationError::Link),
            "entry {:?}",
            entry
        );
    }
    assert_eq!(
        Proxy::deserialize(&mut ByteCursor::new(&[0, 0])),
        Err(DeserializationError::Link)
    );
    assert_eq!(Proxy::deserialize(&mut ByteCursor::new(&[0, 2])), Ok(Proxy(2)));
    assert_eq!(
        NameAndTypeProxy::deserialize(&mut ByteCursor::new(&[0, 1, 0, 0])),
        Err(DeserializationError::Link)
    );
    assert_eq!(
        DoubleProxy::deserialize(&mut ByteCursor::new(&[0, 0, 0, 1])),
        Err(DeserializationError::Link)
    );
}

#[test]
fn a_first_index_of_zero_fails_before_the_second_index_is_read() {
    for tag in [9u8, 10, 11, 12] {
        assert_eq!(
            ProxyConstPoolType::deserialize(&mut ByteCursor::new(&[tag, 0, 0])),
            Err(DeserializationError::Link)
        );
        assert_eq!(
            ProxyConstPoolType::deserialize(&mut ByteCursor::new(&[tag, 0, 1])),
            Err(DeserializationError::CannotRead)
        );
        assert_eq!(
            ProxyConstPoolType::deserialize(&mut ByteCursor::new(&[tag, 0, 1, 0])),
            Err(DeserializationError::CannotRead)
        );
    }
}

#[test]
fn an_entry_with_index_zero_fails_before_what_follows_it_is_read() {
    let data = [0, 2, 7, 0, 0];
    assert_eq!(
        deserialize_const_pool(&mut ByteCursor::new(&data)),
        Err(DeserializationError::Link)
    );
    let data = [0, 3, 7, 0, 0, 99];
    assert_eq!(
        deserialize_const_pool(&mut ByteCursor::new(&data)),
        Err(DeserializationError::Link)
    );
    let data = [0, 3, 7, 0, 0];
    assert_eq!(
        deserialize_const_pool(&mut ByteCursor::new(&data)),
        Err(DeserializationError::Link)
    );
    let data = [0, 3, 99, 7, 0, 0];
    assert_eq!(
        deserialize_const_pool(&mut ByteCursor::new(&data)),
        Err(parsing("Invalid const pool type id: 99"))
    );
    let data = [0, 3, 7, 0, 2, 7, 0];
    assert_eq!(
        deserialize_const_pool(&mut ByteCursor::new(&data)),
        Err(DeserializationError::CannotRead)
    );
}

#[test]
fn a_long_takes_two_slots() {
    let data = [5, 0, 0, 0, 0, 0, 0, 0, 9, 1, 0, 1, b'x'];
    let mut cursor = ByteCursor::new(&data);
    let slots = deserialize_pool_slots(&mut cursor, 3).unwrap();
    assert_eq!(
        slots,
        vec![
            ProxyConstPoolType::Value(ConstPoolType::Long(9)),
            ProxyConstPoolType::Value(ConstPoolType::Reserved),
            text_slot("x"),
        ]
    );
    assert_eq!(cursor.consumed(), data.len());
}

#[test]
fn a_double_takes_two_slots() {
    let data = [0, 4, 1, 0, 1, b'x', 6, 0x3f, 0xf0, 0, 0, 0, 0, 0, 0];
    let mut cursor = ByteCursor::new(&data);
    let pool = deserialize_const_pool(&mut cursor).unwrap();
    assert_eq!(
        pool,
        vec![
            ConstPoolType::Utf8(Rc::new("x".to_string())),
            ConstPoolType::Double(1.0f64.to_bits()),
            ConstPoolType::Reserved,
        ]
    );
}

#[test]
fn a_two_slot_entry_in_the_last_slot_is_a_parsing_error() {
    let data = [0, 2, 5, 0, 0, 0, 0, 0, 0, 0, 9];
    let mut cursor = ByteCursor::new(&data);
    assert_eq!(
        deserialize_const_pool(&mut cursor),
        Err(parsing("Const pool ends inside a two-slot entry."))
    );
    let data = [0, 3, 1, 0, 0, 6, 0, 0, 0, 0, 0, 0, 0, 9];
    let mut cursor = ByteCursor::new(&data);
    assert_eq!(
        deserialize_const_pool(&mut cursor),
        Err(parsing("Const pool ends inside a two-slot entry."))
    );
    let data = [0, 2, 5, 0, 0, 0, 0, 0, 0, 0];
    let mut cursor = ByteCursor::new(&data);
    assert_eq!(deserialize_const_pool(&mut cursor), Err(DeserializationError::CannotRead));
}

#[test]
fn a_pool_count_of_zero_is_a_parsing_error() {
    let data = [0, 0, 1, 0, 0];
    let mut cursor = ByteCursor::new(&data);
    assert_eq!(
        deserialize_const_pool(&mut cursor),
        Err(parsing("Const pool count must not be zero."))
    );
}

#[test]
fn a_pool_count_of_one_is_an_empty_pool() {
    let data = [0, 1, 0xff];
    let mut cursor = ByteCursor::new(&data);
    assert_eq!(deserialize_const_pool(&mut cursor), Ok(vec![]));
    assert_eq!(cursor.consumed(), 2);
}

#[test]
fn a_reserved_slot_cannot_be_referred_to() {
    // slot 1: Long, slot 2: reserved, slot 3: Utf8, slot 4: entry under test
    let head = [0u8, 5, 5, 0, 0, 0, 0, 0, 0, 0, 9, 1, 0, 1, b'x'];
    for entry in [vec![7u8, 0, 2], vec![8, 0, 2], vec![12, 0, 2, 0, 3], vec![12, 0, 3, 0, 2]] {
        let mut data = head.to_vec();
        data.extend_from_slice(&entry);
        let mut cursor = ByteCursor::new(&data);
        assert_eq!(deserialize_const_pool(&mut cursor), Err(DeserializationError::Link));
    }
    for entry in [vec![7u8, 0, 3], vec![8, 0, 3], vec![12, 0, 3, 0, 3]] {
        let mut data = head.to_vec();
        data.extend_from_slice(&entry);
        let mut cursor = ByteCursor::new(&data);
        assert_eq!(deserialize_const_pool(&mut cursor).unwrap().len(), 4);
    }
    // a field reference whose class index names the reserved slot
    let mut data = vec![0u8, 7, 5, 0, 0, 0, 0, 0, 0, 0, 9, 1, 0, 1, b'x'];
    data.extend_from_slice(&[7, 0, 3, 12, 0, 3, 0, 3, 9, 0, 2, 0, 5]);
    assert_eq!(
        deserialize_const_pool(&mut ByteCursor::new(&data)),
        Err(DeserializationError::Link)
    );
    let mut data = vec![0u8, 7, 5, 0, 0, 0, 0, 0, 0, 0, 9, 1, 0, 1, b'x'];
    data.extend_from_slice(&[7, 0, 3, 12, 0, 3, 0, 3, 9, 0, 4, 0, 2]);
    assert_eq!(
        deserialize_const_pool(&mut ByteCursor::new(&data)),
        Err(DeserializationError::Link)
    );
    let mut data = vec![0u8, 7, 5, 0, 0, 0, 0, 0, 0, 0, 9, 1, 0, 1, b'x'];
    data.extend_from_slice(&[7, 0, 3, 12, 0, 3, 0, 3, 9, 0, 4, 0, 5]);
    assert_eq!(deserialize_const_pool(&mut ByteCursor::new(&data)).unwrap().len(), 6);
}

#[test]
fn a_reserved_slot_is_not_found_from_the_body() {
    let pool = vec![
        ConstPoolType::Long(1),
        ConstPoolType::Reserved,
        ConstPoolType::Utf8(Rc::new("x".to_string())),
    ];
    let data = [0u8, 2];
    assert_eq!(
        Utf8Info::deserialize_link(&mut ByteCursor::new(&data), &pool),
        Err(DeserializationError::Link)
    );
    assert_eq!(
        ClassInfo::deserialize_link(&mut ByteCursor::new(&data), &pool),
        Err(DeserializationError::Link)
    );
    assert_eq!(
        ConstValueType::deserialize_link(&mut ByteCursor::new(&data), &pool),
        Err(DeserializationError::Link)
    );
    assert_eq!(
        deserialize_class_if_any(&mut ByteCursor::new(&data), &pool),
        Err(DeserializationError::Link)
    );
    assert_eq!(deserialize_super_class(&mut ByteCursor::new(&data), &pool), Ok(None));
    assert_eq!(
        find_const_pool_element(&mut ByteCursor::new(&data), &pool),
        Ok(Some(&ConstPoolType::Reserved))
    );
}

#[test]
fn a_simple_proxy_names_a_text() {
    let pool = small_pool();
    assert_eq!(resolve_simple_proxy(&Proxy(1), &pool).unwrap().as_str(), "Thing");
    assert_eq!(resolve_simple_proxy(&Proxy(2), &pool).unwrap().as_str(), "I");
    assert_eq!(resolve_simple_proxy(&Proxy(0), &pool), Err(DeserializationError::Link));
    assert_eq!(resolve_simple_proxy(&Proxy(3), &pool), Err(DeserializationError::Link));
    assert_eq!(resolve_simple_proxy(&Proxy(6), &pool), Err(DeserializationError::Link));
    assert_eq!(resolve_simple_proxy(&Proxy(7), &pool), Err(DeserializationError::Link));
    assert_eq!(resolve_simple_proxy(&Proxy(u16::MAX), &pool), Err(DeserializationError::Link));
}

#[test]
fn a_double_proxy_names_a_class_and_a_pair() {
    let pool = small_pool();
    let both = DoubleProxy {
        class: ProxyToProxyClass(3),
        name_and_type: ProxyToProxyNameAndType(4),
    };
    let member = resolve_double_proxy(&both, &pool).unwrap();
    assert_eq!(member.class.0.as_str(), "Thing");
    assert_eq!(member.name_and_type.name.as_str(), "Thing");
    assert_eq!(member.name_and_type.descriptor.as_str(), "I");
    for (class, name_and_type) in [(4, 4), (3, 3), (0, 4), (3, 0), (1, 4), (3, 2), (7, 4), (3, 7)] {
        let wrong = DoubleProxy {
            class: ProxyToProxyClass(class),
            name_and_type: ProxyToProxyNameAndType(name_and_type),
        };
        assert_eq!(resolve_double_proxy(&wrong, &pool), Err(DeserializationError::Link));
    }
}

#[test]
fn each_proxy_resolves_to_its_entry() {
    let pool = small_pool();
    assert_eq!(
        StringProxy(Proxy(2)).resolve(&pool),
        Ok(ConstPoolType::String(Rc::new("I".to_string())))
    );
    assert_eq!(
        ClassProxy(Proxy(1)).resolve(&pool),
        Ok(ConstPoolType::Class(ClassInfo(Rc::new("Thing".to_string()))))
    );
    assert_eq!(ClassProxy(Proxy(3)).resolve(&pool), Err(DeserializationError::Link));
    assert_eq!(StringProxy(Proxy(0)).resolve(&pool), Err(DeserializationError::Link));
    assert_eq!(pool[3].resolve(&pool), ProxyToProxyNameAndType(4).resolve(&pool));
    assert_eq!(pool[2].resolve(&pool), ProxyToProxyClass(3).resolve(&pool));
    assert_eq!(ProxyToProxyClass(4).resolve(&pool), Err(DeserializationError::Link));
    assert_eq!(ProxyToProxyClass(0).resolve(&pool), Err(DeserializationError::Link));
    assert_eq!(ProxyToProxyNameAndType(3).resolve(&pool), Err(DeserializationError::Link));
    assert_eq!(ProxyToProxyNameAndType(9).resolve(&pool), Err(DeserializationError::Link));
    assert_eq!(
        NameAndTypeProxy { name: Proxy(2), descriptor: Proxy(3) }.resolve(&pool),
        Err(DeserializationError::Link)
    );
    assert_eq!(ConstPoolType::Int(7).resolve(&pool), Ok(ConstPoolType::Int(7)));
    assert_eq!(pool[5].resolve(&pool), Ok(ConstPoolType::Int(7)));
    let double = DoubleProxy {
        class: ProxyToProxyClass(3),
        name_and_type: ProxyToProxyNameAndType(4),
    };
    let member = resolve_double_proxy(&double, &pool).unwrap();
    assert_eq!(FieldRefProxy(double).resolve(&pool), Ok(ConstPoolType::Field(member.clone())));
    assert_eq!(MethodRefProxy(double).resolve(&pool), Ok(ConstPoolType::MethodRef(member.clone())));
    assert_eq!(
        InterfaceMethodRefProxy(double).resolve(&pool),
        Ok(ConstPoolType::InterfaceMethodRef(member))
    );
}

#[test]
fn a_pool_is_linked_slot_for_slot() {
    let pool = resolve_all(&small_pool()).unwrap();
    assert_eq!(pool.len(), 6);
    assert_eq!(pool[0], ConstPoolType::Utf8(Rc::new("Thing".to_string())));
    assert_eq!(pool[2], ConstPoolType::Class(ClassInfo(Rc::new("Thing".to_string()))));
    match &pool[4] {
        ConstPoolType::Field(member) => {
            assert_eq!(member.class.0.as_str(), "Thing");
            assert_eq!(member.name_and_type.descriptor.as_str(), "I");
        }
        other => panic!("unexpected entry {:?}", other),
    }
    assert_eq!(pool[5], ConstPoolType::Int(7));
    let mut broken = small_pool();
    broken.push(ProxyConstPoolType::String(StringProxy(Proxy(3))));
    assert_eq!(resolve_all(&broken), Err(DeserializationError::Link));
    assert_eq!(resolve_all(&[]), Ok(vec![]));
}

#[test]
fn handles_share_the_text_they_name() {
    let pool = resolve_all(&small_pool()).unwrap();
    match (&pool[0], &pool[2]) {
        (ConstPoolType::Utf8(text), ConstPoolType::Class(class)) => {
            assert!(Rc::ptr_eq(text, &class.0));
        }
        other => panic!("unexpected entries {:?}", other),
    }
    let copy = pool[2].clone();
    match (&copy, &pool[2]) {
        (ConstPoolType::Class(a), ConstPoolType::Class(b)) => assert!(Rc::ptr_eq(&a.0, &b.0)),
        other => panic!("unexpected entries {:?}", other),
    }
}

#[test]
fn an_index_in_the_body_finds_its_slot() {
    let pool = resolve_all(&small_pool()).unwrap();
    let data = [0u8, 6, 0, 0, 0, 7, 0];
    let mut cursor = ByteCursor::new(&data);
    assert_eq!(find_const_pool_element(&mut cursor, &pool), Ok(Some(&ConstPoolType::Int(7))));
    assert_eq!(find_const_pool_element(&mut cursor, &pool), Ok(None));
    assert_eq!(find_const_pool_element(&mut cursor, &pool), Err(DeserializationError::Link));
    assert_eq!(find_const_pool_element(&mut cursor, &pool), Err(DeserializationError::CannotRead));
}

#[test]
fn a_text_or_a_class_is_required_where_it_is_asked_for() {
    let pool = resolve_all(&small_pool()).unwrap();
    assert_eq!(
        Utf8Info::deserialize_link(&mut ByteCursor::new(&[0, 2]), &pool).unwrap().as_str(),
        "I"
    );
    for index in [0u8, 3, 4, 5, 6, 7] {
        assert_eq!(
            Utf8Info::deserialize_link(&mut ByteCursor::new(&[0, index]), &pool),
            Err(DeserializationError::Link)
        );
    }
    assert_eq!(
        ClassInfo::deserialize_link(&mut ByteCursor::new(&[0, 3]), &pool).unwrap().0.as_str(),
        "Thing"
    );
    for index in [0u8, 1, 2, 4, 5, 6, 7] {
        assert_eq!(
            ClassInfo::deserialize_link(&mut ByteCursor::new(&[0, index]), &pool),
            Err(DeserializationError::Link)
        );
    }
    assert_eq!(
        ClassInfo::deserialize_link(&mut ByteCursor::new(&[0]), &pool),
        Err(DeserializationError::CannotRead)
    );
}

#[test]
fn a_super_class_never_fails_to_link() {
    let pool = resolve_all(&small_pool()).unwrap();
    let mut cursor = ByteCursor::new(&[0, 3, 0, 0, 0, 1, 0, 9, 0xff, 0xff, 0]);
    assert_eq!(
        deserialize_super_class(&mut cursor, &pool),
        Ok(Some(ClassInfo(Rc::new("Thing".to_string()))))
    );
    assert_eq!(deserialize_super_class(&mut cursor, &pool), Ok(None));
    assert_eq!(deserialize_super_class(&mut cursor, &pool), Ok(None));
    assert_eq!(deserialize_super_class(&mut cursor, &pool), Ok(None));
    assert_eq!(deserialize_super_class(&mut cursor, &pool), Ok(None));
    assert_eq!(cursor.consumed(), 10);
    assert_eq!(deserialize_super_class(&mut cursor, &pool), Err(DeserializationError::CannotRead));
}

#[test]
fn a_class_that_may_be_absent_is_a_class_or_index_zero() {
    let pool = resolve_all(&small_pool()).unwrap();
    let mut cursor = ByteCursor::new(&[0, 3, 0, 0, 0xee]);
    assert_eq!(
        deserialize_class_if_any(&mut cursor, &pool),
        Ok(Some(ClassInfo(Rc::new("Thing".to_string()))))
    );
    assert_eq!(deserialize_class_if_any(&mut cursor, &pool), Ok(None));
    assert_eq!(cursor.consumed(), 4);
    assert_eq!(deserialize_class_if_any(&mut cursor, &pool), Err(DeserializationError::CannotRead));
    for index in [1u8, 2, 4, 5, 6, 7, 9] {
        assert_eq!(
            deserialize_class_if_any(&mut ByteCursor::new(&[0, index]), &pool),
            Err(DeserializationError::Link),
            "index {}",
            index
        );
    }
    assert_eq!(
        deserialize_class_if_any(&mut ByteCursor::new(&[0xff, 0xff]), &pool),
        Err(DeserializationError::Link)
    );
}

#[test]
fn a_constant_is_a_number_or_a_string() {
    let pool = vec![
        ConstPoolType::Int(-5),
        ConstPoolType::Float(2.5f32.to_bits()),
        ConstPoolType::Long(1 << 40),
        ConstPoolType::Reserved,
        ConstPoolType::Double(0.5f64.to_bits()),
        ConstPoolType::Reserved,
        ConstPoolType::String(Rc::new("s".to_string())),
        ConstPoolType::Utf8(Rc::new("s".to_string())),
        ConstPoolType::Class(ClassInfo(Rc::new("s".to_string()))),
    ];
    let read =
        |index: u8| ConstValueType::deserialize_link(&mut ByteCursor::new(&[0, index]), &pool);
    assert_eq!(read(1), Ok(ConstValueType::Int(-5)));
    assert_eq!(read(2), Ok(ConstValueType::Float(0x4020_0000)));
    assert_eq!(read(3), Ok(ConstValueType::Long(1 << 40)));
    assert_eq!(read(5), Ok(ConstValueType::Double(0x3fe0_0000_0000_0000)));
    assert_eq!(read(7), Ok(ConstValueType::String(Rc::new("s".to_string()))));
    for index in [0u8, 4, 6, 8, 9, 10] {
        assert_eq!(read(index), Err(DeserializationError::Link));
    }
}
