//! Type annotations and interface declarations, with their mathematical views.
use vstd::prelude::*;

verus! {

/// A primitive keyword type.
#[derive(Clone, Copy, Debug, PartialEq, Eq, Structural)]
pub enum TsKeyword {
    Any,
    Unknown,
    Number,
    Object,
    Boolean,
    BigInt,
    String,
    Symbol,
    Void,
    Undefined,
    Null,
    Never,
    Intrinsic,
}

/// The name a type reference points at.
#[derive(Debug, PartialEq, Eq)]
pub enum TsEntityName {
    /// A simple identifier, as in `Color`.
    Ident(String),
    /// A dotted name, as in `ns.Color`.
    Qualified,
}

/// A type annotation.
#[derive(Debug, PartialEq, Eq)]
pub enum TsType {
    Keyword(TsKeyword),
    Array(Box<TsType>),
    Paren(Box<TsType>),
    Union(Vec<TsType>),
    Ref(TsEntityName),
    /// Any other shape of type.
    Other,
}

pub enum TsEntityNameView {
    Ident(Seq<char>),
    Qualified,
}

pub enum TsTypeView {
    Keyword(TsKeyword),
    Array(Box<TsTypeView>),
    Paren(Box<TsTypeView>),
    Union(Seq<TsTypeView>),
    Ref(TsEntityNameView),
    Other,
}

impl View for TsEntityName {
    type V = TsEntityNameView;

    open spec fn view(&self) -> TsEntityNameView {
        match self {
            TsEntityName::Ident(name) => TsEntityNameView::Ident(name@),
            TsEntityName::Qualified => TsEntityNameView::Qualified,
        }
    }
}

/// The view of a type annotation.
pub open spec fn type_view(t: TsType) -> TsTypeView
    decreases t,
{
    match t {
        TsType::Keyword(k) => TsTypeView::Keyword(k),
        TsType::Array(elem) => TsTypeView::Array(Box::new(type_view(*elem))),
        TsType::Paren(inner) => TsTypeView::Paren(Box::new(type_view(*inner))),
        TsType::Union(members) => TsTypeView::Union(
            Seq::new(
                members@.len(),
                |i: int|
                    if 0 <= i < members@.len() {
                        type_view(members@[i])
                    } else {
                        arbitrary()
                    },
            ),
        ),
        TsType::Ref(name) => TsTypeView::Ref(name@),
        TsType::Other => TsTypeView::Other,
    }
}

impl View for TsType {
    type V = TsTypeView;

    open spec fn view(&self) -> TsTypeView {
        type_view(*self)
    }
}

/// The key of a property signature.
#[derive(Debug, PartialEq, Eq)]
pub enum PropertyKey {
    /// A plain identifier, as in `score: number`.
    Ident(String),
    /// A string literal, as in `"high score": number`.
    Str(String),
    /// Any other key, such as a computed one.
    Other,
}

/// One property of an interface: its key and its optional type annotation.
#[derive(Debug, PartialEq, Eq)]
pub struct PropertySignature {
    pub key: PropertyKey,
    pub type_ann: Option<TsType>,
}

/// A member of an interface body.
#[derive(Debug, PartialEq, Eq)]
pub enum TypeElement {
    Property(PropertySignature),
    /// A method, call, construct or index signature.
    Other,
}

/// An interface declaration: its name and its members in source order.
#[derive(Debug, PartialEq, Eq)]
pub struct InterfaceDecl {
    pub name: String,
    pub body: Vec<TypeElement>,
}

pub enum PropertyKeyView {
    Ident(Seq<char>),
    Str(Seq<char>),
    Other,
}

pub struct PropertySignatureView {
    pub key: PropertyKeyView,
    pub type_ann: Option<TsTypeView>,
}

pub enum TypeElementView {
    Property(PropertySignatureView),
    Other,
}

pub struct InterfaceDeclView {
    pub name: Seq<char>,
    pub body: Seq<TypeElementView>,
}

impl View for PropertyKey {
    type V = PropertyKeyView;

    open spec fn view(&self) -> PropertyKeyView {
        match self {
            PropertyKey::Ident(name) => PropertyKeyView::Ident(name@),
            PropertyKey::Str(value) => PropertyKeyView::Str(value@),
            PropertyKey::Other => PropertyKeyView::Other,
        }
    }
}

impl View for PropertySignature {
    type V = PropertySignatureView;

    open spec fn view(&self) -> PropertySignatureView {
        PropertySignatureView {
            key: self.key@,
            type_ann: match self.type_ann {
                Some(t) => Some(t@),
                None => None,
            },
        }
    }
}

impl View for TypeElement {
    type V = TypeElementView;

    open spec fn view(&self) -> TypeElementView {
        match self {
            TypeElement::Property(p) => TypeElementView::Property(p@),
            TypeElement::Other => TypeElementView::Other,
        }
    }
}

impl View for InterfaceDecl {
    type V = InterfaceDeclView;

    open spec fn view(&self) -> InterfaceDeclView {
        InterfaceDeclView { name: self.name@, body: self.body@.map_values(|m: TypeElement| m@) }
    }
}

} // verus!
