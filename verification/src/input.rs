//! A type definition with its attributes, as it is handed in.

use crate::name::Name;
use vstd::prelude::*;

verus! {

/// What stands behind the key of an attribute.
pub enum AttrValue {
    /// Nothing: the key alone.
    Flag,
    /// A string literal, by its content.
    Text(String),
    /// One identifier.
    Ident(Name),
    /// A path of more than one segment, as written.
    Path(String),
    /// An identifier with a type in parentheses behind it.
    Call { func: Name, arg: String },
    /// A type in parentheses directly behind the key.
    Args(String),
}

/// What an [`AttrValue`] holds.
pub enum AttrValueView {
    Flag,
    Text(Seq<char>),
    Ident(Seq<char>),
    Path(Seq<char>),
    Call { func: Seq<char>, arg: Seq<char> },
    Args(Seq<char>),
}

impl View for AttrValue {
    type V = AttrValueView;

    open spec fn view(&self) -> AttrValueView {
        match self {
            AttrValue::Flag => AttrValueView::Flag,
            AttrValue::Text(text) => AttrValueView::Text(text@),
            AttrValue::Ident(name) => AttrValueView::Ident(name@),
            AttrValue::Path(path) => AttrValueView::Path(path@),
            AttrValue::Call { func, arg } => AttrValueView::Call { func: func@, arg: arg@ },
            AttrValue::Args(arg) => AttrValueView::Args(arg@),
        }
    }
}

/// One attribute: a key and what stands behind it.
pub struct Attr {
    pub key: String,
    pub value: AttrValue,
}

/// What an [`Attr`] holds.
pub struct AttrView {
    pub key: Seq<char>,
    pub value: AttrValueView,
}

impl View for Attr {
    type V = AttrView;

    open spec fn view(&self) -> AttrView {
        AttrView { key: self.key@, value: self.value@ }
    }
}

/// What the attributes of `attrs` hold, in order.
pub open spec fn attr_views(attrs: Seq<Attr>) -> Seq<AttrView> {
    attrs.map_values(|attr: Attr| attr@)
}

/// A field of the type definition.
pub struct FieldInput {
    pub ident: String,
    /// The field's type, as written.
    pub ty: String,
    pub attrs: Vec<Attr>,
}

/// What a [`FieldInput`] holds.
pub struct FieldInputView {
    pub ident: Seq<char>,
    pub ty: Seq<char>,
    pub attrs: Seq<AttrView>,
}

impl View for FieldInput {
    type V = FieldInputView;

    open spec fn view(&self) -> FieldInputView {
        FieldInputView { ident: self.ident@, ty: self.ty@, attrs: attr_views(self.attrs@) }
    }
}

/// What the fields of `fields` hold, in order.
pub open spec fn field_input_views(fields: Seq<FieldInput>) -> Seq<FieldInputView> {
    fields.map_values(|field: FieldInput| field@)
}

/// A type definition: its name, its visibility as written, its attributes
/// and its fields in the order of declaration.
pub struct StructInput {
    pub ident: String,
    pub vis: String,
    pub attrs: Vec<Attr>,
    pub fields: Vec<FieldInput>,
}

/// What a [`StructInput`] holds.
pub struct StructInputView {
    pub ident: Seq<char>,
    pub vis: Seq<char>,
    pub attrs: Seq<AttrView>,
    pub fields: Seq<FieldInputView>,
}

impl View for StructInput {
    type V = StructInputView;

    open spec fn view(&self) -> StructInputView {
        StructInputView {
            ident: self.ident@,
            vis: self.vis@,
            attrs: attr_views(self.attrs@),
            fields: field_input_views(self.fields@),
        }
    }
}

} // verus!
