//! Static structural description of a type: fields or variants, each with
//! its declared per-field overrides.  Schemas are immutable inputs to
//! generation.

use vstd::prelude::*;

use crate::config::{FieldAttrs, FieldAttrsV};

verus! {

/// A declared field type, reduced to what the generator may inspect:
/// a path of identifiers, a reference to another type, or anything else.
pub enum DeclaredType {
    Path { segments: Vec<String> },
    Reference { inner: Box<DeclaredType> },
    Other,
}

/// The base identifier of a declared type: the single segment of a plain
/// path, seen through any number of references; `None` for a multi-segment
/// path; the empty string for any other shape.
pub open spec fn path_str_spec(t: DeclaredType) -> Option<Seq<char>>
    decreases t,
{
    match t {
        DeclaredType::Path { segments } => if segments.len() == 1 {
            Some(segments[0]@)
        } else {
            None
        },
        DeclaredType::Reference { inner } => path_str_spec(*inner),
        DeclaredType::Other => Some(Seq::empty()),
    }
}

/// Extracts the base identifier of a declared type, for host policies that
/// dispatch on a type's name.
pub fn get_path_str(t: &DeclaredType) -> (r: Option<String>)
    ensures
        r.deep_view() == path_str_spec(*t),
    decreases *t,
{
    match t {
        DeclaredType::Path { segments } => {
            if segments.len() == 1 {
                Some(segments[0].clone())
            } else {
                None
            }
        },
        DeclaredType::Reference { inner } => get_path_str(inner),
        DeclaredType::Other => Some(String::new()),
    }
}

/// A named field and its declared overrides.
pub struct NamedField {
    pub ident: String,
    pub attrs: FieldAttrs,
}

/// Mathematical model of `NamedField`.
pub struct NamedFieldV {
    pub ident: Seq<char>,
    pub attrs: FieldAttrsV,
}

impl DeepView for NamedField {
    type V = NamedFieldV;

    open spec fn deep_view(&self) -> NamedFieldV {
        NamedFieldV { ident: self.ident.deep_view(), attrs: self.attrs.deep_view() }
    }
}

/// A positional field and its declared overrides; its identity is its
/// declaration index.
pub struct UnnamedField {
    pub attrs: FieldAttrs,
}

/// Mathematical model of `UnnamedField`.
pub struct UnnamedFieldV {
    pub attrs: FieldAttrsV,
}

impl DeepView for UnnamedField {
    type V = UnnamedFieldV;

    open spec fn deep_view(&self) -> UnnamedFieldV {
        UnnamedFieldV { attrs: self.attrs.deep_view() }
    }
}

/// The shape of a struct or of a variant payload: named fields, positional
/// fields, or no fields at all.
#[allow(inconsistent_fields)]
pub enum FieldsDecl {
    Named { fields: Vec<NamedField> },
    Unnamed { fields: Vec<UnnamedField> },
    Unit,
}

/// Mathematical model of `FieldsDecl`.
#[allow(inconsistent_fields)]
pub enum FieldsDeclV {
    Named { fields: Seq<NamedFieldV> },
    Unnamed { fields: Seq<UnnamedFieldV> },
    Unit,
}

impl DeepView for FieldsDecl {
    type V = FieldsDeclV;

    open spec fn deep_view(&self) -> FieldsDeclV {
        match self {
            FieldsDecl::Named { fields } => FieldsDeclV::Named { fields: fields.deep_view() },
            FieldsDecl::Unnamed { fields } => FieldsDeclV::Unnamed { fields: fields.deep_view() },
            FieldsDecl::Unit => FieldsDeclV::Unit,
        }
    }
}

/// One named alternative of an enum, with its payload shape.
pub struct VariantDecl {
    pub ident: String,
    pub fields: FieldsDecl,
}

/// Mathematical model of `VariantDecl`.
pub struct VariantDeclV {
    pub ident: Seq<char>,
    pub fields: FieldsDeclV,
}

impl DeepView for VariantDecl {
    type V = VariantDeclV;

    open spec fn deep_view(&self) -> VariantDeclV {
        VariantDeclV { ident: self.ident.deep_view(), fields: self.fields.deep_view() }
    }
}

/// The structural body of a type.  A union is a shape the generator does
/// not model and rejects outright.
pub enum DataDecl {
    Struct { fields: FieldsDecl },
    Enum { variants: Vec<VariantDecl> },
    Union,
}

/// Mathematical model of `DataDecl`.
pub enum DataDeclV {
    Struct { fields: FieldsDeclV },
    Enum { variants: Seq<VariantDeclV> },
    Union,
}

impl DeepView for DataDecl {
    type V = DataDeclV;

    open spec fn deep_view(&self) -> DataDeclV {
        match self {
            DataDecl::Struct { fields } => DataDeclV::Struct { fields: fields.deep_view() },
            DataDecl::Enum { variants } => DataDeclV::Enum { variants: variants.deep_view() },
            DataDecl::Union => DataDeclV::Union,
        }
    }
}

/// One generic parameter of the described type.  Only type parameters can
/// carry the inspectable-capability requirement.
pub enum GenericParam {
    Type { ident: String, needs_inspect: bool },
    Lifetime { ident: String },
    Const { ident: String },
}

/// Mathematical model of `GenericParam`.
pub enum GenericParamV {
    Type { ident: Seq<char>, needs_inspect: bool },
    Lifetime { ident: Seq<char> },
    Const { ident: Seq<char> },
}

impl DeepView for GenericParam {
    type V = GenericParamV;

    open spec fn deep_view(&self) -> GenericParamV {
        match self {
            GenericParam::Type { ident, needs_inspect } => GenericParamV::Type {
                ident: ident.deep_view(),
                needs_inspect: *needs_inspect,
            },
            GenericParam::Lifetime { ident } => GenericParamV::Lifetime {
                ident: ident.deep_view(),
            },
            GenericParam::Const { ident } => GenericParamV::Const { ident: ident.deep_view() },
        }
    }
}

/// A whole type declaration: its name, its generic parameters and its
/// structural body.
pub struct TypeDecl {
    pub ident: String,
    pub generics: Vec<GenericParam>,
    pub data: DataDecl,
}

/// Mathematical model of `TypeDecl`.
pub struct TypeDeclV {
    pub ident: Seq<char>,
    pub generics: Seq<GenericParamV>,
    pub data: DataDeclV,
}

impl DeepView for TypeDecl {
    type V = TypeDeclV;

    open spec fn deep_view(&self) -> TypeDeclV {
        TypeDeclV {
            ident: self.ident.deep_view(),
            generics: self.generics.deep_view(),
            data: self.data.deep_view(),
        }
    }
}

} // verus!
