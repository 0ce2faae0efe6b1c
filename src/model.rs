//! A plain description of the type definition that is transformed.

use vstd::prelude::*;

verus! {

/// What sort of type definition the input is.
#[derive(Clone, Copy, Debug, PartialEq, Eq, Structural)]
pub enum DataKind {
    Enum,
    Struct,
    Union,
}

/// One attribute of the type or of a variant.
#[derive(Clone, Debug)]
pub struct Attribute {
    /// The attribute's path as written, e.g. `template`.
    pub path: String,
    /// Whether the attribute has the list shape `#[path(...)]`.
    pub is_list: bool,
    /// The whole attribute as source text, e.g. `#[template(source = "A")]`.
    pub text: String,
}

/// The sort of a generic parameter.
#[derive(Clone, Copy, Debug, PartialEq, Eq, Structural)]
pub enum GenericKind {
    Lifetime,
    Type,
    Const,
}

/// One generic parameter of the type.
#[derive(Clone, Debug)]
pub struct GenericParam {
    pub kind: GenericKind,
    /// The parameter's name; a lifetime's name includes its `'`.
    pub name: String,
    /// The bounds after `:` (a const parameter's type), or empty.
    pub bounds: String,
}

/// A named field: its name and its type as source text.
#[derive(Clone, Debug)]
pub struct NamedField {
    pub name: String,
    pub ty: String,
}

/// The field shape of a variant.
#[derive(Clone, Debug)]
pub enum Fields {
    /// No fields.
    Unit,
    /// Positional fields, by their types as source text.
    Unnamed(Vec<String>),
    /// Named fields.
    Named(Vec<NamedField>),
}

/// One variant of the enum.
#[derive(Clone, Debug)]
pub struct Variant {
    pub ident: String,
    pub attrs: Vec<Attribute>,
    pub fields: Fields,
}

/// The type definition that is transformed.
#[derive(Clone, Debug)]
pub struct DeriveInput {
    pub kind: DataKind,
    pub ident: String,
    pub attrs: Vec<Attribute>,
    /// Generic parameters in declaration order, without defaults.
    pub generics: Vec<GenericParam>,
    /// The where clause as source text (starting with `where`), or empty.
    pub where_clause: String,
    /// The variants in declaration order; empty unless `kind` is `Enum`.
    pub variants: Vec<Variant>,
}

/// Why a type definition cannot be transformed.
#[derive(Clone, Copy, Debug, PartialEq, Eq, Structural)]
pub enum ExpandError {
    /// The input is a struct or a union.
    NotAnEnum(DataKind),
    /// The type carries a second `#[template]`, at this attribute index.
    DuplicateTypeTemplate { attr: usize },
    /// A variant carries a second `#[template]`, at this attribute index.
    DuplicateVariantTemplate { variant: usize, attr: usize },
    /// A variant has no `#[template]` of its own and the type has none either.
    MissingTemplate { variant: usize },
}

/// The diagnostic that goes with each error.
pub open spec fn error_message(e: ExpandError) -> Seq<char> {
    match e {
        ExpandError::NotAnEnum(_) => "#[derive(EnumTemplate)] can only be used with enums"@,
        ExpandError::DuplicateTypeTemplate { .. } =>
            "cannot have more than one #[template] attribute for a type"@,
        ExpandError::DuplicateVariantTemplate { .. } =>
            "cannot have more than one #[template] attribute for a variant"@,
        ExpandError::MissingTemplate { .. } => "need a #[template] attribute"@,
    }
}

impl ExpandError {
    /// The diagnostic for this error.
    pub fn message(&self) -> (r: &'static str)
        ensures
            r@ == error_message(*self),
    {
        match self {
            ExpandError::NotAnEnum(_) => "#[derive(EnumTemplate)] can only be used with enums",
            ExpandError::DuplicateTypeTemplate { .. } =>
                "cannot have more than one #[template] attribute for a type",
            ExpandError::DuplicateVariantTemplate { .. } =>
                "cannot have more than one #[template] attribute for a variant",
            ExpandError::MissingTemplate { .. } => "need a #[template] attribute",
        }
    }
}

} // verus!
