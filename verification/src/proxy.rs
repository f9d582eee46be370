//! The constant pool as it is read, before linking, and the linking itself.
//!
//! An entry that refers to other entries holds their indices as the file
//! gives them: the first slot has index 1, and index 0 names no slot. An
//! entry of the file with the index 0 is turned down where it is read, so
//! a pool that was read holds none. Linking replaces every index by the
//! payload it names, and fails where an index names no slot or a slot of
//! the wrong variant.

use crate::const_pool::{
    ClassInfo, ComponentRef, ComponentRefView, ConstPoolType, ConstPoolView, NameAndTypeInfoStruct,
    NameAndTypeView, Utf8Info,
};
use crate::error::{DeserializationError, ErrorView};
use crate::reader::share;
use std::rc::Rc;
use vstd::prelude::*;

verus! {

/// The index of a `Utf8` entry.
#[derive(Debug, Copy, Clone, PartialEq, Eq)]
pub struct Proxy(pub u16);

/// The indices that a field or method reference holds.
#[derive(Debug, Copy, Clone, PartialEq, Eq)]
pub struct DoubleProxy {
    pub class: ProxyToProxyClass,
    pub name_and_type: ProxyToProxyNameAndType,
}

/// The index of a `NameAndType` entry.
#[derive(Debug, Copy, Clone, PartialEq, Eq)]
pub struct ProxyToProxyNameAndType(pub u16);

/// The index of a `Class` entry.
#[derive(Debug, Copy, Clone, PartialEq, Eq)]
pub struct ProxyToProxyClass(pub u16);

/// The indices that a `NameAndType` entry holds.
#[derive(Debug, Copy, Clone, PartialEq, Eq)]
pub struct NameAndTypeProxy {
    pub name: Proxy,
    pub descriptor: Proxy,
}

/// A reference to a field, as it is read.
#[derive(Debug, Copy, Clone, PartialEq, Eq)]
pub struct FieldRefProxy(pub DoubleProxy);

/// A reference to a method of a class, as it is read.
#[derive(Debug, Copy, Clone, PartialEq, Eq)]
pub struct MethodRefProxy(pub DoubleProxy);

/// A reference to a method of an interface, as it is read.
#[derive(Debug, Copy, Clone, PartialEq, Eq)]
pub struct InterfaceMethodRefProxy(pub DoubleProxy);

/// A string constant, as it is read.
#[derive(Debug, Copy, Clone, PartialEq, Eq)]
pub struct StringProxy(pub Proxy);

/// A class, as it is read.
#[derive(Debug, Copy, Clone, PartialEq, Eq)]
pub struct ClassProxy(pub Proxy);

impl DeepView for Proxy {
    type V = Proxy;

    open spec fn deep_view(&self) -> Proxy {
        *self
    }
}

impl DeepView for DoubleProxy {
    type V = DoubleProxy;

    open spec fn deep_view(&self) -> DoubleProxy {
        *self
    }
}

impl DeepView for NameAndTypeProxy {
    type V = NameAndTypeProxy;

    open spec fn deep_view(&self) -> NameAndTypeProxy {
        *self
    }
}

/// One slot of the pool as it is read.
#[derive(Debug, PartialEq, Eq)]
pub enum ProxyConstPoolType {
    /// An entry that refers to no other: a `Utf8`, a number, or the slot
    /// reserved behind a `Long` or a `Double`.
    Value(ConstPoolType),
    NameAndType(NameAndTypeProxy),
    FieldRef(FieldRefProxy),
    MethodRef(MethodRefProxy),
    InterfaceMethodRef(InterfaceMethodRefProxy),
    String(StringProxy),
    Class(ClassProxy),
}

/// Mathematical model of a [`ProxyConstPoolType`].
pub enum ProxyView {
    Value(ConstPoolView),
    NameAndType(NameAndTypeProxy),
    FieldRef(FieldRefProxy),
    MethodRef(MethodRefProxy),
    InterfaceMethodRef(InterfaceMethodRefProxy),
    String(StringProxy),
    Class(ClassProxy),
}

impl DeepView for ProxyConstPoolType {
    type V = ProxyView;

    open spec fn deep_view(&self) -> ProxyView {
        match self {
            ProxyConstPoolType::Value(value) => ProxyView::Value(value.deep_view()),
            ProxyConstPoolType::NameAndType(proxy) => ProxyView::NameAndType(*proxy),
            ProxyConstPoolType::FieldRef(proxy) => ProxyView::FieldRef(*proxy),
            ProxyConstPoolType::MethodRef(proxy) => ProxyView::MethodRef(*proxy),
            ProxyConstPoolType::InterfaceMethodRef(proxy) => ProxyView::InterfaceMethodRef(*proxy),
            ProxyConstPoolType::String(proxy) => ProxyView::String(*proxy),
            ProxyConstPoolType::Class(proxy) => ProxyView::Class(*proxy),
        }
    }
}

impl ProxyView {
    /// Whether the entry takes two slots of the pool.
    pub open spec fn is_wide(self) -> bool {
        self matches ProxyView::Value(value) && value.is_wide()
    }
}

impl ProxyConstPoolType {
    /// Whether the entry takes two slots of the pool.
    pub fn is_wide(&self) -> (wide: bool)
        ensures
            wide == self.deep_view().is_wide(),
    {
        match self {
            ProxyConstPoolType::Value(value) => value.is_wide(),
            _ => false,
        }
    }
}

/// Whether the file's index `index` names a slot of a pool of `len` slots.
pub open spec fn names_slot(index: u16, len: nat) -> bool {
    1 <= index <= len
}

/// The text of the `Utf8` entry with index `index`, if the index names one.
pub open spec fn utf8_at(pool: Seq<ProxyView>, index: u16) -> Option<Seq<char>> {
    if names_slot(index, pool.len()) {
        match pool[index - 1] {
            ProxyView::Value(ConstPoolView::Utf8(text)) => Some(text),
            _ => None,
        }
    } else {
        None
    }
}

/// The name of the class that the `Class` entry with index `index` names,
/// if the index names a `Class` entry that links.
pub open spec fn class_at(pool: Seq<ProxyView>, index: u16) -> Option<Seq<char>> {
    if names_slot(index, pool.len()) {
        match pool[index - 1] {
            ProxyView::Class(proxy) => utf8_at(pool, proxy.0.0),
            _ => None,
        }
    } else {
        None
    }
}

/// What a `NameAndType` entry with these two indices links to.
pub open spec fn link_name_and_type(pool: Seq<ProxyView>, proxy: NameAndTypeProxy) -> Option<
    NameAndTypeView,
> {
    match (utf8_at(pool, proxy.name.0), utf8_at(pool, proxy.descriptor.0)) {
        (Some(name), Some(descriptor)) => Some(NameAndTypeView { name, descriptor }),
        _ => None,
    }
}

/// The name and descriptor of the `NameAndType` entry with index `index`,
/// if the index names a `NameAndType` entry that links.
pub open spec fn name_and_type_at(pool: Seq<ProxyView>, index: u16) -> Option<NameAndTypeView> {
    if names_slot(index, pool.len()) {
        match pool[index - 1] {
            ProxyView::NameAndType(proxy) => link_name_and_type(pool, proxy),
            _ => None,
        }
    } else {
        None
    }
}

/// What a field or method reference with these two indices links to.
pub open spec fn link_component(pool: Seq<ProxyView>, proxy: DoubleProxy) -> Option<
    ComponentRefView,
> {
    match (class_at(pool, proxy.class.0), name_and_type_at(pool, proxy.name_and_type.0)) {
        (Some(class), Some(name_and_type)) => Some(ComponentRefView { class, name_and_type }),
        _ => None,
    }
}

/// The linked form of one slot of the pool `pool`, or nothing where one of
/// its indices names no slot or a slot of the wrong variant.
pub open spec fn spec_link(entry: ProxyView, pool: Seq<ProxyView>) -> Option<ConstPoolView> {
    match entry {
        ProxyView::Value(value) => Some(value),
        ProxyView::String(proxy) => match utf8_at(pool, proxy.0.0) {
            Some(text) => Some(ConstPoolView::String(text)),
            None => None,
        },
        ProxyView::Class(proxy) => match utf8_at(pool, proxy.0.0) {
            Some(name) => Some(ConstPoolView::Class(name)),
            None => None,
        },
        ProxyView::NameAndType(proxy) => match link_name_and_type(pool, proxy) {
            Some(pair) => Some(ConstPoolView::NameAndType(pair)),
            None => None,
        },
        ProxyView::FieldRef(proxy) => match link_component(pool, proxy.0) {
            Some(member) => Some(ConstPoolView::Field(member)),
            None => None,
        },
        ProxyView::MethodRef(proxy) => match link_component(pool, proxy.0) {
            Some(member) => Some(ConstPoolView::MethodRef(member)),
            None => None,
        },
        ProxyView::InterfaceMethodRef(proxy) => match link_component(pool, proxy.0) {
            Some(member) => Some(ConstPoolView::InterfaceMethodRef(member)),
            None => None,
        },
    }
}

/// Whether every slot of `pool` links.
pub open spec fn links(pool: Seq<ProxyView>) -> bool {
    forall|i: int| 0 <= i < pool.len() ==> (#[trigger] spec_link(pool[i], pool)) is Some
}

/// The linked pool: slot for slot the linked form of `pool`, or nothing
/// where a slot does not link.
pub open spec fn spec_link_all(pool: Seq<ProxyView>) -> Option<Seq<ConstPoolView>> {
    if links(pool) {
        Some(Seq::new(pool.len(), |i: int| spec_link(pool[i], pool)->0))
    } else {
        None
    }
}

/// The relation between the outcome of a linking step and what the pool
/// says: the linked value, or a link error.
pub open spec fn linked_as<T: DeepView>(
    r: Result<T, DeserializationError>,
    expected: Option<T::V>,
) -> bool {
    match expected {
        Some(value) => r matches Ok(x) && x.deep_view() == value,
        None => r matches Err(e) && e.deep_view() == ErrorView::Link,
    }
}

/// The position in the pool of the slot that the file numbers `index`.
/// Index 0 names no slot.
pub fn get_real_index(index: u16) -> (r: Result<u16, DeserializationError>)
    ensures
        linked_as(r, if index == 0 { None } else { Some((index - 1) as u16) }),
{
    if index == 0 {
        Err(DeserializationError::Link)
    } else {
        Ok(index - 1)
    }
}

/// What can be linked against a pool.
pub trait ResolveProxy: Sized {
    /// The linked form, or nothing where it does not link.
    spec fn linked(&self, pool: Seq<ProxyView>) -> Option<ConstPoolView>;

    /// Links against `pool`. Fails with a link error exactly where an index
    /// names no slot or a slot of the wrong variant.
    fn resolve(&self, pool: &[ProxyConstPoolType]) -> (r: Result<
        ConstPoolType,
        DeserializationError,
    >)
        ensures
            linked_as(r, self.linked(pool.deep_view())),
    ;
}

impl ResolveProxy for ConstPoolType {
    open spec fn linked(&self, pool: Seq<ProxyView>) -> Option<ConstPoolView> {
        Some(self.deep_view())
    }

    fn resolve(&self, pool: &[ProxyConstPoolType]) -> (r: Result<
        ConstPoolType,
        DeserializationError,
    >) {
        assert(self.linked(pool.deep_view()) == Some(self.deep_view()));
        Ok(self.clone())
    }
}

/// The `Utf8` payload that `proxy` names.
pub fn resolve_simple_proxy(proxy: &Proxy, pool: &[ProxyConstPoolType]) -> (r: Result<
    Utf8Info,
    DeserializationError,
>)
    ensures
        linked_as(r, utf8_at(pool.deep_view(), proxy.0)),
{
    let at = get_real_index(proxy.0)?;
    if at as usize >= pool.len() {
        return Err(DeserializationError::Link);
    }
    match &pool[at as usize] {
        ProxyConstPoolType::Value(ConstPoolType::Utf8(utf8)) => Ok(share(utf8)),
        _ => Err(DeserializationError::Link),
    }
}

impl ResolveProxy for StringProxy {
    open spec fn linked(&self, pool: Seq<ProxyView>) -> Option<ConstPoolView> {
        spec_link(ProxyView::String(*self), pool)
    }

    fn resolve(&self, pool: &[ProxyConstPoolType]) -> (r: Result<
        ConstPoolType,
        DeserializationError,
    >) {
        assert(self.linked(pool.deep_view()) == spec_link(
            ProxyView::String(*self),
            pool.deep_view(),
        ));
        Ok(ConstPoolType::String(resolve_simple_proxy(&self.0, pool)?))
    }
}

impl ResolveProxy for ClassProxy {
    open spec fn linked(&self, pool: Seq<ProxyView>) -> Option<ConstPoolView> {
        spec_link(ProxyView::Class(*self), pool)
    }

    fn resolve(&self, pool: &[ProxyConstPoolType]) -> (r: Result<
        ConstPoolType,
        DeserializationError,
    >) {
        assert(self.linked(pool.deep_view()) == spec_link(
            ProxyView::Class(*self),
            pool.deep_view(),
        ));
        Ok(ConstPoolType::Class(ClassInfo(resolve_simple_proxy(&self.0, pool)?)))
    }
}

impl ResolveProxy for NameAndTypeProxy {
    open spec fn linked(&self, pool: Seq<ProxyView>) -> Option<ConstPoolView> {
        spec_link(ProxyView::NameAndType(*self), pool)
    }

    fn resolve(&self, pool: &[ProxyConstPoolType]) -> (r: Result<
        ConstPoolType,
        DeserializationError,
    >) {
        assert(self.linked(pool.deep_view()) == spec_link(
            ProxyView::NameAndType(*self),
            pool.deep_view(),
        ));
        let name = resolve_simple_proxy(&self.name, pool)?;
        let descriptor = resolve_simple_proxy(&self.descriptor, pool)?;
        Ok(ConstPoolType::NameAndType(Rc::new(NameAndTypeInfoStruct { name, descriptor })))
    }
}

impl ResolveProxy for ProxyToProxyNameAndType {
    open spec fn linked(&self, pool: Seq<ProxyView>) -> Option<ConstPoolView> {
        match name_and_type_at(pool, self.0) {
            Some(pair) => Some(ConstPoolView::NameAndType(pair)),
            None => None,
        }
    }

    fn resolve(&self, pool: &[ProxyConstPoolType]) -> (r: Result<
        ConstPoolType,
        DeserializationError,
    >) {
        assert(self.linked(pool.deep_view()) == match name_and_type_at(pool.deep_view(), self.0) {
            Some(pair) => Some(ConstPoolView::NameAndType(pair)),
            None => None,
        });
        let at = get_real_index(self.0)?;
        if at as usize >= pool.len() {
            return Err(DeserializationError::Link);
        }
        match &pool[at as usize] {
            ProxyConstPoolType::NameAndType(proxy) => proxy.resolve(pool),
            _ => Err(DeserializationError::Link),
        }
    }
}

impl ResolveProxy for ProxyToProxyClass {
    open spec fn linked(&self, pool: Seq<ProxyView>) -> Option<ConstPoolView> {
        match class_at(pool, self.0) {
            Some(name) => Some(ConstPoolView::Class(name)),
            None => None,
        }
    }

    fn resolve(&self, pool: &[ProxyConstPoolType]) -> (r: Result<
        ConstPoolType,
        DeserializationError,
    >) {
        assert(self.linked(pool.deep_view()) == match class_at(pool.deep_view(), self.0) {
            Some(name) => Some(ConstPoolView::Class(name)),
            None => None,
        });
        let at = get_real_index(self.0)?;
        if at as usize >= pool.len() {
            return Err(DeserializationError::Link);
        }
        match &pool[at as usize] {
            ProxyConstPoolType::Class(proxy) => proxy.resolve(pool),
            _ => Err(DeserializationError::Link),
        }
    }
}

/// The class and the name and descriptor that `proxy` names.
pub fn resolve_double_proxy(proxy: &DoubleProxy, pool: &[ProxyConstPoolType]) -> (r: Result<
    ComponentRef,
    DeserializationError,
>)
    ensures
        linked_as(r, link_component(pool.deep_view(), *proxy)),
{
    let class = match proxy.class.resolve(pool)? {
        ConstPoolType::Class(class) => class,
        _ => {
            return Err(DeserializationError::Link);
        },
    };
    let name_and_type = match proxy.name_and_type.resolve(pool)? {
        ConstPoolType::NameAndType(name_and_type) => name_and_type,
        _ => {
            return Err(DeserializationError::Link);
        },
    };
    Ok(ComponentRef { class, name_and_type })
}

impl ResolveProxy for FieldRefProxy {
    open spec fn linked(&self, pool: Seq<ProxyView>) -> Option<ConstPoolView> {
        spec_link(ProxyView::FieldRef(*self), pool)
    }

    fn resolve(&self, pool: &[ProxyConstPoolType]) -> (r: Result<
        ConstPoolType,
        DeserializationError,
    >) {
        assert(self.linked(pool.deep_view()) == spec_link(
            ProxyView::FieldRef(*self),
            pool.deep_view(),
        ));
        Ok(ConstPoolType::Field(resolve_double_proxy(&self.0, pool)?))
    }
}

impl ResolveProxy for MethodRefProxy {
    open spec fn linked(&self, pool: Seq<ProxyView>) -> Option<ConstPoolView> {
        spec_link(ProxyView::MethodRef(*self), pool)
    }

    fn resolve(&self, pool: &[ProxyConstPoolType]) -> (r: Result<
        ConstPoolType,
        DeserializationError,
    >) {
        assert(self.linked(pool.deep_view()) == spec_link(
            ProxyView::MethodRef(*self),
            pool.deep_view(),
        ));
        Ok(ConstPoolType::MethodRef(resolve_double_proxy(&self.0, pool)?))
    }
}

impl ResolveProxy for InterfaceMethodRefProxy {
    open spec fn linked(&self, pool: Seq<ProxyView>) -> Option<ConstPoolView> {
        spec_link(ProxyView::InterfaceMethodRef(*self), pool)
    }

    fn resolve(&self, pool: &[ProxyConstPoolType]) -> (r: Result<
        ConstPoolType,
        DeserializationError,
    >) {
        assert(self.linked(pool.deep_view()) == spec_link(
            ProxyView::InterfaceMethodRef(*self),
            pool.deep_view(),
        ));
        Ok(ConstPoolType::InterfaceMethodRef(resolve_double_proxy(&self.0, pool)?))
    }
}

impl ResolveProxy for ProxyConstPoolType {
    open spec fn linked(&self, pool: Seq<ProxyView>) -> Option<ConstPoolView> {
        spec_link(self.deep_view(), pool)
    }

    fn resolve(&self, pool: &[ProxyConstPoolType]) -> (r: Result<
        ConstPoolType,
        DeserializationError,
    >) {
        assert(self.linked(pool.deep_view()) == spec_link(self.deep_view(), pool.deep_view()));
        match self {
            ProxyConstPoolType::Value(value) => value.resolve(pool),
            ProxyConstPoolType::NameAndType(value) => value.resolve(pool),
            ProxyConstPoolType::FieldRef(value) => value.resolve(pool),
            ProxyConstPoolType::MethodRef(value) => value.resolve(pool),
            ProxyConstPoolType::InterfaceMethodRef(value) => value.resolve(pool),
            ProxyConstPoolType::String(value) => value.resolve(pool),
            ProxyConstPoolType::Class(value) => value.resolve(pool),
        }
    }
}

/// Links every slot of `proxies` against the whole of it.
pub fn resolve_all(proxies: &[ProxyConstPoolType]) -> (r: Result<
    Vec<ConstPoolType>,
    DeserializationError,
>)
    ensures
        linked_as(r, spec_link_all(proxies.deep_view())),
{
    let ghost raw = proxies.deep_view();
    let mut pool: Vec<ConstPoolType> = Vec::new();
    let mut i: usize = 0;
    while i < proxies.len()
        invariant
            i <= proxies.len(),
            raw == proxies.deep_view(),
            pool.len() == i,
            forall|j: int|
                0 <= j < i ==> spec_link(raw[j], raw) == Some(#[trigger] pool[j].deep_view()),
        decreases proxies.len() - i,
    {
        match proxies[i].resolve(proxies) {
            Ok(entry) => {
                pool.push(entry);
            },
            Err(e) => {
                assert(spec_link(raw[i as int], raw) is None);
                return Err(e);
            },
        }
        i = i + 1;
    }
    proof {
        assert forall|j: int| 0 <= j < raw.len() implies (#[trigger] spec_link(raw[j], raw))
            == Some(pool[j].deep_view()) by {
            let linked = pool[j].deep_view();
        }
        assert(pool.deep_view() =~= spec_link_all(raw)->0);
    }
    Ok(pool)
}

} // verus!
