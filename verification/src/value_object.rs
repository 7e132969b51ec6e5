//! The generation engine: which capability units a wrapper-type declaration
//! earns, and with what content.
//!
//! A [`ValueObject`] couples a validated-construction attribute set with the
//! structural description of the declaration it annotates. Its engine first
//! applies the shape rules of [`crate::descriptor`]; for an eligible
//! declaration it then emits up to four capability units in a fixed order:
//! serialization, display, conversion, parse. Each unit carries the names the
//! renderer needs and nothing else; the engine never renders program text
//! itself.

use vstd::prelude::*;

use crate::descriptor::{
    FieldList, Shape, ShapeError, ShapeErrorV, ShapeV, TypeDescriptor,
    eligible_inner_type, is_eligible, resolve_shape, validate_descriptor,
};
use crate::primitives::{from_str_default_name, is_from_str_default_name};

verus! {

/// The attribute set attached to a wrapper-type declaration: the validating
/// constructor and its failure type, both required, and one optional switch
/// per capability. An unset switch means "use the default": enabled for
/// serialization, display and conversion; computed from the inner type's name
/// for parse. The serialization namespace defaults to the conventional name
/// of the standard serialization support.
#[derive(Debug, Clone, PartialEq, Eq)]
pub struct ValueObjectAttributes {
    pub error_type: String,
    pub load_fn: String,
    pub serde_derive: Option<bool>,
    pub serde_crate: Option<String>,
    pub display_derive: Option<bool>,
    pub try_from_derive: Option<bool>,
    pub from_str_derive: Option<bool>,
}

/// Mathematical image of a [`ValueObjectAttributes`].
pub struct ValueObjectAttributesV {
    pub error_type: Seq<char>,
    pub load_fn: Seq<char>,
    pub serde_derive: Option<bool>,
    pub serde_crate: Option<Seq<char>>,
    pub display_derive: Option<bool>,
    pub try_from_derive: Option<bool>,
    pub from_str_derive: Option<bool>,
}

impl View for ValueObjectAttributes {
    type V = ValueObjectAttributesV;

    open spec fn view(&self) -> ValueObjectAttributesV {
        ValueObjectAttributesV {
            error_type: self.error_type@,
            load_fn: self.load_fn@,
            serde_derive: self.serde_derive,
            serde_crate: match self.serde_crate {
                Some(s) => Some(s@),
                None => None,
            },
            display_derive: self.display_derive,
            try_from_derive: self.try_from_derive,
            from_str_derive: self.from_str_derive,
        }
    }
}

/// One synthesized behaviour.
#[derive(Debug, Clone, Copy, PartialEq, Eq, Structural)]
pub enum CapabilityKind {
    Serialization,
    Display,
    Conversion,
    Parse,
}

/// One self-contained generated unit: a capability together with the names
/// the renderer needs to emit its implementation.
#[derive(Debug, Clone, PartialEq, Eq)]
pub enum GeneratedUnit {
    /// Decode a value of the inner type through the namespace's decoding
    /// interface and apply the load function, rendering its failure into the
    /// namespace's generic error; encode by delegating to the stored inner
    /// value.
    Serialization { wrapper_name: String, inner_type: String, load_fn: String, namespace: String },
    /// Render the stored inner value unchanged.
    Display { wrapper_name: String },
    /// Convert a value of the inner type by applying the load function and
    /// returning its outcome unchanged.
    Conversion { wrapper_name: String, inner_type: String, load_fn: String, error_type: String },
    /// Parse a value of the inner type from text, converting a parse failure
    /// into the error type, then apply the load function.
    Parse { wrapper_name: String, inner_type: String, load_fn: String, error_type: String },
}

/// Mathematical image of a [`GeneratedUnit`].
pub enum GeneratedUnitV {
    Serialization {
        wrapper_name: Seq<char>,
        inner_type: Seq<char>,
        load_fn: Seq<char>,
        namespace: Seq<char>,
    },
    Display { wrapper_name: Seq<char> },
    Conversion {
        wrapper_name: Seq<char>,
        inner_type: Seq<char>,
        load_fn: Seq<char>,
        error_type: Seq<char>,
    },
    Parse { wrapper_name: Seq<char>, inner_type: Seq<char>, load_fn: Seq<char>, error_type: Seq<char> },
}

impl View for GeneratedUnit {
    type V = GeneratedUnitV;

    open spec fn view(&self) -> GeneratedUnitV {
        match self {
            GeneratedUnit::Serialization { wrapper_name, inner_type, load_fn, namespace } => (
            GeneratedUnitV::Serialization {
                wrapper_name: wrapper_name@,
                inner_type: inner_type@,
                load_fn: load_fn@,
                namespace: namespace@,
            }),
            GeneratedUnit::Display { wrapper_name } => (GeneratedUnitV::Display {
                wrapper_name: wrapper_name@,
            }),
            GeneratedUnit::Conversion { wrapper_name, inner_type, load_fn, error_type } => (
            GeneratedUnitV::Conversion {
                wrapper_name: wrapper_name@,
                inner_type: inner_type@,
                load_fn: load_fn@,
                error_type: error_type@,
            }),
            GeneratedUnit::Parse { wrapper_name, inner_type, load_fn, error_type } => (
            GeneratedUnitV::Parse {
                wrapper_name: wrapper_name@,
                inner_type: inner_type@,
                load_fn: load_fn@,
                error_type: error_type@,
            }),
        }
    }
}

impl DeepView for GeneratedUnit {
    type V = GeneratedUnitV;

    open spec fn deep_view(&self) -> GeneratedUnitV {
        self@
    }
}

/// The capability a unit implements.
pub open spec fn kind_of(u: GeneratedUnitV) -> CapabilityKind {
    match u {
        GeneratedUnitV::Serialization { .. } => CapabilityKind::Serialization,
        GeneratedUnitV::Display { .. } => CapabilityKind::Display,
        GeneratedUnitV::Conversion { .. } => CapabilityKind::Conversion,
        GeneratedUnitV::Parse { .. } => CapabilityKind::Parse,
    }
}

impl GeneratedUnit {
    /// The capability this unit implements.
    pub fn kind(&self) -> (k: CapabilityKind)
        ensures
            k == kind_of(self@),
    {
        match self {
            GeneratedUnit::Serialization { .. } => CapabilityKind::Serialization,
            GeneratedUnit::Display { .. } => CapabilityKind::Display,
            GeneratedUnit::Conversion { .. } => CapabilityKind::Conversion,
            GeneratedUnit::Parse { .. } => CapabilityKind::Parse,
        }
    }
}

/// The capabilities of a unit sequence, in order.
pub open spec fn unit_kinds(units: Seq<GeneratedUnitV>) -> Seq<CapabilityKind> {
    units.map_values(|u: GeneratedUnitV| kind_of(u))
}

/// Whether the serialization unit is generated: the switch, defaulting to
/// enabled.
pub open spec fn serde_enabled(a: ValueObjectAttributesV) -> bool {
    match a.serde_derive {
        Some(b) => b,
        None => true,
    }
}

/// Whether the display unit is generated: the switch, defaulting to enabled.
pub open spec fn display_enabled(a: ValueObjectAttributesV) -> bool {
    match a.display_derive {
        Some(b) => b,
        None => true,
    }
}

/// Whether the conversion unit is generated: the switch, defaulting to
/// enabled.
pub open spec fn try_from_enabled(a: ValueObjectAttributesV) -> bool {
    match a.try_from_derive {
        Some(b) => b,
        None => true,
    }
}

/// Whether the parse unit is generated: the switch where set; otherwise
/// enabled exactly when the inner type's rendered name is one of the
/// default-parse names.
pub open spec fn parse_enabled(a: ValueObjectAttributesV, inner_type: Seq<char>) -> bool {
    match a.from_str_derive {
        Some(b) => b,
        None => is_from_str_default_name(inner_type),
    }
}

/// The namespace the serialization unit refers to: the configured string
/// where set, the conventional name of the standard serialization support
/// otherwise. Used verbatim, never validated.
pub open spec fn serde_namespace(a: ValueObjectAttributesV) -> Seq<char> {
    match a.serde_crate {
        Some(s) => s,
        None => "serde"@,
    }
}

/// A value object as the engine sees it: the declaration's name, the
/// attribute set, the generic parameters and the shape.
#[derive(Debug, Clone, PartialEq, Eq)]
pub struct ValueObject {
    pub ident: String,
    pub attributes: ValueObjectAttributes,
    pub generics: Vec<String>,
    pub struct_internals: Shape,
}

/// Mathematical image of a [`ValueObject`].
pub struct ValueObjectV {
    pub ident: Seq<char>,
    pub attributes: ValueObjectAttributesV,
    pub generics: Seq<Seq<char>>,
    pub struct_internals: ShapeV,
}

impl View for ValueObject {
    type V = ValueObjectV;

    open spec fn view(&self) -> ValueObjectV {
        ValueObjectV {
            ident: self.ident@,
            attributes: self.attributes@,
            generics: self.generics.deep_view(),
            struct_internals: self.struct_internals@,
        }
    }
}

/// The units generated for an eligible value object, in the fixed order
/// serialization, display, conversion, parse, keeping only the enabled ones.
pub open spec fn generated_units(v: ValueObjectV) -> Seq<GeneratedUnitV> {
    let inner = eligible_inner_type(v.struct_internals);
    (if serde_enabled(v.attributes) {
        seq![
            GeneratedUnitV::Serialization {
                wrapper_name: v.ident,
                inner_type: inner,
                load_fn: v.attributes.load_fn,
                namespace: serde_namespace(v.attributes),
            },
        ]
    } else {
        Seq::empty()
    }) + (if display_enabled(v.attributes) {
        seq![GeneratedUnitV::Display { wrapper_name: v.ident }]
    } else {
        Seq::empty()
    }) + (if try_from_enabled(v.attributes) {
        seq![
            GeneratedUnitV::Conversion {
                wrapper_name: v.ident,
                inner_type: inner,
                load_fn: v.attributes.load_fn,
                error_type: v.attributes.error_type,
            },
        ]
    } else {
        Seq::empty()
    }) + (if parse_enabled(v.attributes, inner) {
        seq![
            GeneratedUnitV::Parse {
                wrapper_name: v.ident,
                inner_type: inner,
                load_fn: v.attributes.load_fn,
                error_type: v.attributes.error_type,
            },
        ]
    } else {
        Seq::empty()
    })
}

/// What generation yields: the first shape-rule violation where there is one,
/// and the ordered enabled unit sequence otherwise. One deterministic pass,
/// all or nothing: a rejected descriptor yields no units at all.
pub open spec fn generate_spec(v: ValueObjectV) -> Result<Seq<GeneratedUnitV>, ShapeErrorV> {
    match validate_descriptor(v.ident, v.generics, v.struct_internals) {
        Err(e) => Err(e),
        Ok(_) => Ok(generated_units(v)),
    }
}

impl ValueObject {
    /// Couples an attribute set with the descriptor it annotates.
    pub fn new(attributes: ValueObjectAttributes, input: TypeDescriptor) -> (r: ValueObject)
        ensures
            r.attributes == attributes,
            r.ident == input.ident,
            r.generics == input.generics,
            r.struct_internals == input.shape,
    {
        ValueObject {
            attributes,
            ident: input.ident,
            generics: input.generics,
            struct_internals: input.shape,
        }
    }

    /// Applies the shape rules in order, first violation wins: generic
    /// parameters, then non-struct shapes, then the unit struct, then the
    /// field count.
    pub fn validate(&self) -> (result: Result<(), ShapeError>)
        ensures
            (match result {
                Ok(_) => validate_descriptor(self@.ident, self@.generics, self@.struct_internals)
                    == Ok::<(), ShapeErrorV>(()),
                Err(e) => validate_descriptor(self@.ident, self@.generics, self@.struct_internals)
                    == Err::<(), ShapeErrorV>(e@),
            }),
    {
        if self.generics.len() != 0 {
            return Err(ShapeError::GenericsNotAllowed(self.ident.clone()));
        }
        match self.get_internal_type() {
            Ok(_) => Ok(()),
            Err(e) => Err(e),
        }
    }

    /// Extracts the declared type of the sole field. Re-derives the shape
    /// rules itself rather than trusting a prior validation call, so it is
    /// safe to invoke on any descriptor.
    pub fn get_internal_type(&self) -> (result: Result<String, ShapeError>)
        ensures
            (match result {
                Ok(t) => resolve_shape(self@.ident, self@.struct_internals) == Ok::<
                    Seq<char>,
                    ShapeErrorV,
                >(t@),
                Err(e) => resolve_shape(self@.ident, self@.struct_internals) == Err::<
                    Seq<char>,
                    ShapeErrorV,
                >(e@),
            }),
    {
        let fields = match &self.struct_internals {
            Shape::Struct(fields) => fields,
            Shape::Enum => {
                return Err(ShapeError::UnsupportedShape("enum".to_owned()));
            },
            Shape::Union => {
                return Err(ShapeError::UnsupportedShape("union".to_owned()));
            },
        };
        match fields {
            FieldList::Named(fs) => {
                if fs.len() != 1 {
                    return Err(ShapeError::FieldCount(self.ident.clone(), fs.len()));
                }
                Ok(fs[0].ty.clone())
            },
            FieldList::Unnamed(fs) => {
                if fs.len() != 1 {
                    return Err(ShapeError::FieldCount(self.ident.clone(), fs.len()));
                }
                Ok(fs[0].ty.clone())
            },
            FieldList::Unit => Err(ShapeError::EmptyShape(self.ident.clone())),
        }
    }

    /// Runs validation, then the four generators in the fixed order
    /// serialization, display, conversion, parse, each enabled per its
    /// switch or default. The result is the ordered sequence of enabled
    /// units, or the first shape-rule violation with no partial output.
    pub fn generate(&self) -> (result: Result<Vec<GeneratedUnit>, ShapeError>)
        ensures
            (match result {
                Ok(units) => generate_spec(self@) == Ok::<Seq<GeneratedUnitV>, ShapeErrorV>(
                    units.deep_view(),
                ),
                Err(e) => generate_spec(self@) == Err::<Seq<GeneratedUnitV>, ShapeErrorV>(e@),
            }),
    {
        if self.generics.len() != 0 {
            return Err(ShapeError::GenericsNotAllowed(self.ident.clone()));
        }
        let inner = match self.get_internal_type() {
            Ok(t) => t,
            Err(e) => {
                return Err(e);
            },
        };
        let mut units: Vec<GeneratedUnit> = Vec::new();
        if serde_capability_enabled(&self.attributes) {
            units.push(GeneratedUnit::Serialization {
                wrapper_name: self.ident.clone(),
                inner_type: inner.clone(),
                load_fn: self.attributes.load_fn.clone(),
                namespace: serde_namespace_of(&self.attributes),
            });
        }
        if display_capability_enabled(&self.attributes) {
            units.push(GeneratedUnit::Display { wrapper_name: self.ident.clone() });
        }
        if try_from_capability_enabled(&self.attributes) {
            units.push(GeneratedUnit::Conversion {
                wrapper_name: self.ident.clone(),
                inner_type: inner.clone(),
                load_fn: self.attributes.load_fn.clone(),
                error_type: self.attributes.error_type.clone(),
            });
        }
        if parse_capability_enabled(&self.attributes, &inner) {
            units.push(GeneratedUnit::Parse {
                wrapper_name: self.ident.clone(),
                inner_type: inner.clone(),
                load_fn: self.attributes.load_fn.clone(),
                error_type: self.attributes.error_type.clone(),
            });
        }
        proof {
            assert(units.deep_view() =~= generated_units(self@));
        }
        Ok(units)
    }
}

/// Law: with every capability switch unset, generation on an eligible value
/// object yields exactly one unit per capability whose default resolves to
/// enabled, in the fixed order serialization, display, conversion, parse:
/// the first three always, the parse unit exactly when the inner type's
/// rendered name is a default-parse name.
pub proof fn lemma_default_capabilities(v: ValueObjectV)
    requires
        is_eligible(v.generics, v.struct_internals),
        v.attributes.serde_derive is None,
        v.attributes.display_derive is None,
        v.attributes.try_from_derive is None,
        v.attributes.from_str_derive is None,
    ensures
        ({
            let inner = eligible_inner_type(v.struct_internals);
            let ser = (GeneratedUnitV::Serialization {
                wrapper_name: v.ident,
                inner_type: inner,
                load_fn: v.attributes.load_fn,
                namespace: serde_namespace(v.attributes),
            });
            let dis = (GeneratedUnitV::Display { wrapper_name: v.ident });
            let con = (GeneratedUnitV::Conversion {
                wrapper_name: v.ident,
                inner_type: inner,
                load_fn: v.attributes.load_fn,
                error_type: v.attributes.error_type,
            });
            let par = (GeneratedUnitV::Parse {
                wrapper_name: v.ident,
                inner_type: inner,
                load_fn: v.attributes.load_fn,
                error_type: v.attributes.error_type,
            });
            generate_spec(v) == Ok::<Seq<GeneratedUnitV>, ShapeErrorV>(
                if is_from_str_default_name(inner) {
                    seq![ser, dis, con, par]
                } else {
                    seq![ser, dis, con]
                },
            )
        }),
{
    crate::descriptor::lemma_eligible_resolves(v.ident, v.generics, v.struct_internals);
    let inner = eligible_inner_type(v.struct_internals);
    let ser = (GeneratedUnitV::Serialization {
        wrapper_name: v.ident,
        inner_type: inner,
        load_fn: v.attributes.load_fn,
        namespace: serde_namespace(v.attributes),
    });
    let dis = (GeneratedUnitV::Display { wrapper_name: v.ident });
    let con = (GeneratedUnitV::Conversion {
        wrapper_name: v.ident,
        inner_type: inner,
        load_fn: v.attributes.load_fn,
        error_type: v.attributes.error_type,
    });
    let par = (GeneratedUnitV::Parse {
        wrapper_name: v.ident,
        inner_type: inner,
        load_fn: v.attributes.load_fn,
        error_type: v.attributes.error_type,
    });
    if is_from_str_default_name(inner) {
        assert(generated_units(v) =~= seq![ser, dis, con, par]);
    } else {
        assert(generated_units(v) =~= seq![ser, dis, con]);
    }
}

/// Law: an explicit parse switch decides the parse capability by itself,
/// whatever the inner type's rendered name.
pub proof fn lemma_parse_switch_decides(a: ValueObjectAttributesV, inner_type: Seq<char>, b: bool)
    requires
        a.from_str_derive == Some(b),
    ensures
        parse_enabled(a, inner_type) == b,
{
}

/// Law: with the parse switch unset, the parse capability is enabled exactly
/// when the inner type's rendered name is a default-parse name.
pub proof fn lemma_parse_default_policy(a: ValueObjectAttributesV, inner_type: Seq<char>)
    requires
        a.from_str_derive is None,
    ensures
        parse_enabled(a, inner_type) == is_from_str_default_name(inner_type),
{
}

/// Law: on an eligible value object generation succeeds, and the result
/// holds a parse unit exactly when the parse capability is enabled — by the
/// explicit switch where set, by the name policy otherwise.
pub proof fn lemma_parse_unit_presence(v: ValueObjectV)
    requires
        is_eligible(v.generics, v.struct_internals),
    ensures
        generate_spec(v) is Ok,
        ({
            let units = generate_spec(v)->Ok_0;
            let inner = eligible_inner_type(v.struct_internals);
            unit_kinds(units).contains(CapabilityKind::Parse) == parse_enabled(v.attributes, inner)
        }),
{
    crate::descriptor::lemma_eligible_resolves(v.ident, v.generics, v.struct_internals);
    let units = generated_units(v);
    let inner = eligible_inner_type(v.struct_internals);
    if parse_enabled(v.attributes, inner) {
        assert(kind_of(units.last()) == CapabilityKind::Parse);
        assert(unit_kinds(units)[units.len() - 1] == CapabilityKind::Parse);
        assert(unit_kinds(units).contains(CapabilityKind::Parse));
    } else {
        assert forall|i: int| 0 <= i < units.len() implies kind_of(units[i])
            != CapabilityKind::Parse by {
            assert(units[i] is Serialization || units[i] is Display || units[i] is Conversion);
        }
        assert(!unit_kinds(units).contains(CapabilityKind::Parse));
    }
}

/// Law: generation is referentially transparent — identical inputs yield
/// structurally identical outcomes. Together with `generate`'s contract,
/// which pins each call's result to `generate_spec` of its input, two calls
/// on the same value object return structurally identical unit sequences or
/// identical errors.
pub proof fn lemma_generate_deterministic(a: ValueObjectV, b: ValueObjectV)
    requires
        a == b,
    ensures
        generate_spec(a) == generate_spec(b),
{
}

/// Decides the serialization switch with its default.
fn serde_capability_enabled(a: &ValueObjectAttributes) -> (r: bool)
    ensures
        r == serde_enabled(a@),
{
    match a.serde_derive {
        Some(b) => b,
        None => true,
    }
}

/// Decides the display switch with its default.
fn display_capability_enabled(a: &ValueObjectAttributes) -> (r: bool)
    ensures
        r == display_enabled(a@),
{
    match a.display_derive {
        Some(b) => b,
        None => true,
    }
}

/// Decides the conversion switch with its default.
fn try_from_capability_enabled(a: &ValueObjectAttributes) -> (r: bool)
    ensures
        r == try_from_enabled(a@),
{
    match a.try_from_derive {
        Some(b) => b,
        None => true,
    }
}

/// Decides the parse switch: explicit where set, the name policy otherwise.
fn parse_capability_enabled(a: &ValueObjectAttributes, inner_type: &String) -> (r: bool)
    ensures
        r == parse_enabled(a@, inner_type@),
{
    match a.from_str_derive {
        Some(b) => b,
        None => from_str_default_name(inner_type),
    }
}

/// Resolves the namespace the serialization unit refers to.
fn serde_namespace_of(a: &ValueObjectAttributes) -> (r: String)
    ensures
        r@ == serde_namespace(a@),
{
    match &a.serde_crate {
        Some(s) => s.clone(),
        None => "serde".to_owned(),
    }
}

} // verus!
