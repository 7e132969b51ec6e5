//! Structural description of a type declaration, and the shape rules that
//! decide whether a declaration is eligible for generation.
//!
//! A declaration is described by a [`TypeDescriptor`]: its name, its generic
//! parameters (rendered as plain strings) and its [`Shape`]. The shape rules
//! accept exactly the descriptors that name a struct with no generic
//! parameters and a single field, named or unnamed; every other descriptor is
//! rejected with a [`ShapeError`] that names the offending declaration.

use vstd::prelude::*;

verus! {

/// One field of a struct declaration: an optional field name and the rendered
/// text of the field's declared type.
#[derive(Debug, Clone, PartialEq, Eq)]
pub struct Field {
    pub name: Option<String>,
    pub ty: String,
}

/// Mathematical image of a [`Field`].
pub struct FieldV {
    pub name: Option<Seq<char>>,
    pub ty: Seq<char>,
}

impl View for Field {
    type V = FieldV;

    open spec fn view(&self) -> FieldV {
        FieldV {
            name: match self.name {
                Some(n) => Some(n@),
                None => None,
            },
            ty: self.ty@,
        }
    }
}

/// The fields of a struct declaration: named fields, unnamed (tuple) fields,
/// or none at all (a unit struct).
#[derive(Debug, Clone, PartialEq, Eq)]
pub enum FieldList {
    Named(Vec<Field>),
    Unnamed(Vec<Field>),
    Unit,
}

/// Mathematical image of a [`FieldList`].
pub enum FieldListV {
    Named(Seq<FieldV>),
    Unnamed(Seq<FieldV>),
    Unit,
}

impl View for FieldList {
    type V = FieldListV;

    open spec fn view(&self) -> FieldListV {
        match self {
            FieldList::Named(fields) => FieldListV::Named(fields@.map_values(|f: Field| f@)),
            FieldList::Unnamed(fields) => FieldListV::Unnamed(fields@.map_values(|f: Field| f@)),
            FieldList::Unit => FieldListV::Unit,
        }
    }
}

/// Structural classification of a type declaration.
#[derive(Debug, Clone, PartialEq, Eq)]
pub enum Shape {
    Struct(FieldList),
    Enum,
    Union,
}

/// Mathematical image of a [`Shape`].
pub enum ShapeV {
    Struct(FieldListV),
    Enum,
    Union,
}

impl View for Shape {
    type V = ShapeV;

    open spec fn view(&self) -> ShapeV {
        match self {
            Shape::Struct(fields) => ShapeV::Struct(fields@),
            Shape::Enum => ShapeV::Enum,
            Shape::Union => ShapeV::Union,
        }
    }
}

/// A type declaration as the engine sees it: its name, its generic parameters
/// rendered as plain strings, and its shape.
#[derive(Debug, Clone, PartialEq, Eq)]
pub struct TypeDescriptor {
    pub ident: String,
    pub generics: Vec<String>,
    pub shape: Shape,
}

/// Why a descriptor was rejected. Every variant carries enough to point the
/// user at the offending declaration.
#[derive(Debug, Clone, PartialEq, Eq)]
pub enum ShapeError {
    /// The declaration has generic parameters; carries the declaration's name.
    GenericsNotAllowed(String),
    /// The declaration is not a struct; carries the rendered shape kind,
    /// `"enum"` or `"union"`.
    UnsupportedShape(String),
    /// The declaration is a unit struct; carries the declaration's name.
    EmptyShape(String),
    /// The struct has a number of fields other than one; carries the
    /// declaration's name and the field count.
    FieldCount(String, usize),
}

/// Mathematical image of a [`ShapeError`].
pub enum ShapeErrorV {
    GenericsNotAllowed(Seq<char>),
    UnsupportedShape(Seq<char>),
    EmptyShape(Seq<char>),
    FieldCount(Seq<char>, nat),
}

impl View for ShapeError {
    type V = ShapeErrorV;

    open spec fn view(&self) -> ShapeErrorV {
        match self {
            ShapeError::GenericsNotAllowed(name) => ShapeErrorV::GenericsNotAllowed(name@),
            ShapeError::UnsupportedShape(kind) => ShapeErrorV::UnsupportedShape(kind@),
            ShapeError::EmptyShape(name) => ShapeErrorV::EmptyShape(name@),
            ShapeError::FieldCount(name, count) => ShapeErrorV::FieldCount(name@, *count as nat),
        }
    }
}

/// What resolving the inner type of a declaration with name `ident` and shape
/// `shape` yields: the declared type of the sole field when the shape is a
/// struct with exactly one field, and the first applicable shape error
/// otherwise. Enum and union are rejected before the field rules, and a unit
/// struct before the field count.
pub open spec fn resolve_shape(ident: Seq<char>, shape: ShapeV) -> Result<Seq<char>, ShapeErrorV> {
    match shape {
        ShapeV::Enum => Err(ShapeErrorV::UnsupportedShape("enum"@)),
        ShapeV::Union => Err(ShapeErrorV::UnsupportedShape("union"@)),
        ShapeV::Struct(fields) => match fields {
            FieldListV::Unit => Err(ShapeErrorV::EmptyShape(ident)),
            FieldListV::Named(fs) => if fs.len() == 1 {
                Ok(fs[0].ty)
            } else {
                Err(ShapeErrorV::FieldCount(ident, fs.len()))
            },
            FieldListV::Unnamed(fs) => if fs.len() == 1 {
                Ok(fs[0].ty)
            } else {
                Err(ShapeErrorV::FieldCount(ident, fs.len()))
            },
        },
    }
}

/// The shape rules in order, first violation wins: generic parameters are
/// rejected before anything else; then the shape rules of [`resolve_shape`].
pub open spec fn validate_descriptor(
    ident: Seq<char>,
    generics: Seq<Seq<char>>,
    shape: ShapeV,
) -> Result<(), ShapeErrorV> {
    if generics.len() != 0 {
        Err(ShapeErrorV::GenericsNotAllowed(ident))
    } else {
        match resolve_shape(ident, shape) {
            Ok(_) => Ok(()),
            Err(e) => Err(e),
        }
    }
}

/// An eligible descriptor: no generic parameters, a struct shape, and exactly
/// one field, named or unnamed.
pub open spec fn is_eligible(generics: Seq<Seq<char>>, shape: ShapeV) -> bool {
    generics.len() == 0 && match shape {
        ShapeV::Struct(FieldListV::Named(fs)) => fs.len() == 1,
        ShapeV::Struct(FieldListV::Unnamed(fs)) => fs.len() == 1,
        _ => false,
    }
}

/// The declared type of the sole field of an eligible descriptor.
pub open spec fn eligible_inner_type(shape: ShapeV) -> Seq<char>
    recommends
        exists|g: Seq<Seq<char>>| is_eligible(g, shape),
{
    match shape {
        ShapeV::Struct(FieldListV::Named(fs)) => fs[0].ty,
        ShapeV::Struct(FieldListV::Unnamed(fs)) => fs[0].ty,
        _ => Seq::empty(),
    }
}

/// Every descriptor with generic parameters fails validation, whatever its
/// shape, and the error names the declaration.
pub proof fn lemma_generics_rejected(ident: Seq<char>, generics: Seq<Seq<char>>, shape: ShapeV)
    requires
        generics.len() != 0,
    ensures
        validate_descriptor(ident, generics, shape) == Err::<(), ShapeErrorV>(
            ShapeErrorV::GenericsNotAllowed(ident),
        ),
{
}

/// Every enum or union descriptor without generic parameters fails validation
/// with an unsupported-shape error naming its shape kind. (With generic
/// parameters present, the generics rule wins instead.)
pub proof fn lemma_non_struct_rejected(ident: Seq<char>, generics: Seq<Seq<char>>, shape: ShapeV)
    requires
        generics.len() == 0,
        shape is Enum || shape is Union,
    ensures
        validate_descriptor(ident, generics, shape) == Err::<(), ShapeErrorV>(
            ShapeErrorV::UnsupportedShape(if shape is Enum { "enum"@ } else { "union"@ }),
        ),
{
}

/// Every unit-struct descriptor without generic parameters fails validation
/// with an empty-shape error naming the declaration. (With generic parameters
/// present, the generics rule wins instead.)
pub proof fn lemma_unit_struct_rejected(ident: Seq<char>, generics: Seq<Seq<char>>)
    requires
        generics.len() == 0,
    ensures
        validate_descriptor(ident, generics, ShapeV::Struct(FieldListV::Unit)) == Err::<
            (),
            ShapeErrorV,
        >(ShapeErrorV::EmptyShape(ident)),
{
}

/// Every struct descriptor without generic parameters whose field count is
/// not one, named or unnamed, fails validation with a field-count error
/// carrying the declaration's name and the count. (With generic parameters
/// present, the generics rule wins instead.)
pub proof fn lemma_field_count_rejected(
    ident: Seq<char>,
    generics: Seq<Seq<char>>,
    fields: FieldListV,
)
    requires
        generics.len() == 0,
        fields matches FieldListV::Named(fs) ==> fs.len() != 1,
        fields matches FieldListV::Unnamed(fs) ==> fs.len() != 1,
        !(fields is Unit),
    ensures
        validate_descriptor(ident, generics, ShapeV::Struct(fields)) == Err::<(), ShapeErrorV>(
            ShapeErrorV::FieldCount(
                ident,
                match fields {
                    FieldListV::Named(fs) => fs.len(),
                    FieldListV::Unnamed(fs) => fs.len(),
                    FieldListV::Unit => 0,
                },
            ),
        ),
{
}

/// Every eligible descriptor passes validation, and resolving it yields
/// exactly the declared type of its single field.
pub proof fn lemma_eligible_resolves(ident: Seq<char>, generics: Seq<Seq<char>>, shape: ShapeV)
    requires
        is_eligible(generics, shape),
    ensures
        validate_descriptor(ident, generics, shape) == Ok::<(), ShapeErrorV>(()),
        resolve_shape(ident, shape) == Ok::<Seq<char>, ShapeErrorV>(eligible_inner_type(shape)),
{
}

} // verus!
