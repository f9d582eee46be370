use class_parser::attributes::{
    ClassAccessSpecifier, ClassAccessSpecifierFlags, CLASS_ACCESS_SPECIFIER_MASK,
};
use class_parser::components::{
    AccessSpecifier, AccessSpecifierFlags, ClassAccess, ClassAccessFlags, ACCESS_SPECIFIER_MASK,
    CLASS_ACCESS_MASK,
};

#[test]
fn class_flags_have_their_bits() {
    assert_eq!(ClassAccess::Public.bit(), 0x0001);
    assert_eq!(ClassAccess::Final.bit(), 0x0010);
    assert_eq!(ClassAccess::Super.bit(), 0x0020);
    assert_eq!(ClassAccess::Interface.bit(), 0x0200);
    assert_eq!(ClassAccess::Abstract.bit(), 0x0400);
    assert_eq!(CLASS_ACCESS_MASK, 0x0631);
}

#[test]
fn member_flags_have_their_bits() {
    assert_eq!(AccessSpecifier::Public.bit(), 0x0001);
    assert_eq!(AccessSpecifier::Private.bit(), 0x0002);
    assert_eq!(AccessSpecifier::Protected.bit(), 0x0004);
    assert_eq!(AccessSpecifier::Static.bit(), 0x0008);
    assert_eq!(AccessSpecifier::Final.bit(), 0x0010);
    assert_eq!(AccessSpecifier::Volatile.bit(), 0x0040);
    assert_eq!(AccessSpecifier::Transient.bit(), 0x0080);
    assert_eq!(ACCESS_SPECIFIER_MASK, 0x00df);
}

#[test]
fn inner_class_flags_have_their_bits() {
    assert_eq!(ClassAccessSpecifier::Public.bit(), 0x0001);
    assert_eq!(ClassAccessSpecifier::Private.bit(), 0x0002);
    assert_eq!(ClassAccessSpecifier::Protected.bit(), 0x0004);
    assert_eq!(ClassAccessSpecifier::Static.bit(), 0x0008);
    assert_eq!(ClassAccessSpecifier::Final.bit(), 0x0010);
    assert_eq!(ClassAccessSpecifier::Interface.bit(), 0x0040);
    assert_eq!(ClassAccessSpecifier::Abstract.bit(), 0x0080);
    assert_eq!(CLASS_ACCESS_SPECIFIER_MASK, 0x00df);
}

#[test]
fn class_flags_take_only_their_bits() {
    for bits in 0..=u16::MAX {
        let set = ClassAccessFlags::from_bits(bits);
        if bits & !0x0631 == 0 {
            let set = set.unwrap();
            assert_eq!(set.bits(), bits);
            assert_eq!(set.contains(ClassAccess::Public), bits & 0x0001 != 0);
            assert_eq!(set.contains(ClassAccess::Final), bits & 0x0010 != 0);
            assert_eq!(set.contains(ClassAccess::Super), bits & 0x0020 != 0);
            assert_eq!(set.contains(ClassAccess::Interface), bits & 0x0200 != 0);
            assert_eq!(set.contains(ClassAccess::Abstract), bits & 0x0400 != 0);
        } else {
            assert_eq!(set, None);
        }
    }
}

#[test]
fn member_flags_take_only_their_bits() {
    for bits in 0..=u16::MAX {
        let set = AccessSpecifierFlags::from_bits(bits);
        if bits & !0x00df == 0 {
            let set = set.unwrap();
            assert_eq!(set.bits(), bits);
            assert_eq!(set.contains(AccessSpecifier::Volatile), bits & 0x0040 != 0);
            assert_eq!(set.contains(AccessSpecifier::Transient), bits & 0x0080 != 0);
            assert_eq!(set.contains(AccessSpecifier::Private), bits & 0x0002 != 0);
        } else {
            assert_eq!(set, None);
        }
    }
}

#[test]
fn inner_class_flags_take_only_their_bits() {
    for bits in 0..=u16::MAX {
        let set = ClassAccessSpecifierFlags::from_bits(bits);
        if bits & !0x00df == 0 {
            let set = set.unwrap();
            assert_eq!(set.bits(), bits);
            assert_eq!(set.contains(ClassAccessSpecifier::Interface), bits & 0x0040 != 0);
            assert_eq!(set.contains(ClassAccessSpecifier::Abstract), bits & 0x0080 != 0);
        } else {
            assert_eq!(set, None);
        }
    }
}

#[test]
fn flags_are_added_one_by_one() {
    let none = ClassAccessFlags::empty();
    assert_eq!(none.bits(), 0);
    assert!(!none.contains(ClassAccess::Public));
    let two = none.with(ClassAccess::Public).with(ClassAccess::Super);
    assert_eq!(two.bits(), 0x0021);
    assert_eq!(two.with(ClassAccess::Public), two);
    assert_eq!(Some(two), ClassAccessFlags::from_bits(0x0021));
    let member = AccessSpecifierFlags::empty()
        .with(AccessSpecifier::Static)
        .with(AccessSpecifier::Final)
        .with(AccessSpecifier::Private);
    assert_eq!(member.bits(), 0x001a);
    let inner = ClassAccessSpecifierFlags::empty()
        .with(ClassAccessSpecifier::Abstract)
        .with(ClassAccessSpecifier::Interface);
    assert_eq!(inner.bits(), 0x00c0);
}
