use derive_value_object::descriptor::{Field, FieldList, Shape, ShapeError, TypeDescriptor};
use derive_value_object::value_object::{
    CapabilityKind, GeneratedUnit, ValueObject, ValueObjectAttributes,
};

fn default_attributes() -> ValueObjectAttributes {
    ValueObjectAttributes {
        error_type: "String".to_string(),
        load_fn: "Value::new".to_string(),
        serde_derive: None,
        serde_crate: None,
        display_derive: None,
        try_from_derive: None,
        from_str_derive: None,
    }
}

fn unnamed_single_field(name: &str, inner: &str) -> TypeDescriptor {
    TypeDescriptor {
        ident: name.to_string(),
        generics: Vec::new(),
        shape: Shape::Struct(FieldList::Unnamed(vec![Field {
            name: None,
            ty: inner.to_string(),
        }])),
    }
}

fn kinds_of(units: &[GeneratedUnit]) -> Vec<CapabilityKind> {
    units.iter().map(|u| u.kind()).collect()
}

#[test]
fn test_derive_value_object() {
    let value_object = ValueObject::new(
        default_attributes(),
        unnamed_single_field("Value", "String"),
    );
    assert!(value_object.validate().is_ok());
    let units = value_object.generate().unwrap();
    assert_eq!(
        kinds_of(&units),
        vec![
            CapabilityKind::Serialization,
            CapabilityKind::Display,
            CapabilityKind::Conversion,
            CapabilityKind::Parse,
        ]
    );
    match &units[0] {
        GeneratedUnit::Serialization {
            wrapper_name,
            inner_type,
            load_fn,
            namespace,
        } => {
            assert_eq!(wrapper_name, "Value");
            assert_eq!(inner_type, "String");
            assert_eq!(load_fn, "Value::new");
            assert_eq!(namespace, "serde");
        }
        other => panic!("expected a serialization unit, got {:?}", other),
    }
    match &units[1] {
        GeneratedUnit::Display { wrapper_name } => assert_eq!(wrapper_name, "Value"),
        other => panic!("expected a display unit, got {:?}", other),
    }
    match &units[2] {
        GeneratedUnit::Conversion {
            wrapper_name,
            inner_type,
            load_fn,
            error_type,
        } => {
            assert_eq!(wrapper_name, "Value");
            assert_eq!(inner_type, "String");
            assert_eq!(load_fn, "Value::new");
            assert_eq!(error_type, "String");
        }
        other => panic!("expected a conversion unit, got {:?}", other),
    }
    match &units[3] {
        GeneratedUnit::Parse {
            wrapper_name,
            inner_type,
            load_fn,
            error_type,
        } => {
            assert_eq!(wrapper_name, "Value");
            assert_eq!(inner_type, "String");
            assert_eq!(load_fn, "Value::new");
            assert_eq!(error_type, "String");
        }
        other => panic!("expected a parse unit, got {:?}", other),
    }
}

#[test]
fn generics_rejected() {
    let descriptor = TypeDescriptor {
        ident: "Wrapped".to_string(),
        generics: vec!["T".to_string()],
        shape: Shape::Struct(FieldList::Unnamed(vec![Field {
            name: None,
            ty: "T".to_string(),
        }])),
    };
    let value_object = ValueObject::new(default_attributes(), descriptor);
    assert_eq!(
        value_object.validate(),
        Err(ShapeError::GenericsNotAllowed("Wrapped".to_string()))
    );
    assert_eq!(
        value_object.generate(),
        Err(ShapeError::GenericsNotAllowed("Wrapped".to_string()))
    );
}

#[test]
fn enum_shape_rejected() {
    let descriptor = TypeDescriptor {
        ident: "Choice".to_string(),
        generics: Vec::new(),
        shape: Shape::Enum,
    };
    let value_object = ValueObject::new(default_attributes(), descriptor);
    assert_eq!(
        value_object.validate(),
        Err(ShapeError::UnsupportedShape("enum".to_string()))
    );
}

#[test]
fn union_shape_rejected() {
    let descriptor = TypeDescriptor {
        ident: "Raw".to_string(),
        generics: Vec::new(),
        shape: Shape::Union,
    };
    let value_object = ValueObject::new(default_attributes(), descriptor);
    assert_eq!(
        value_object.validate(),
        Err(ShapeError::UnsupportedShape("union".to_string()))
    );
}

#[test]
fn unit_struct_rejected() {
    let descriptor = TypeDescriptor {
        ident: "Empty".to_string(),
        generics: Vec::new(),
        shape: Shape::Struct(FieldList::Unit),
    };
    let value_object = ValueObject::new(default_attributes(), descriptor);
    assert_eq!(
        value_object.validate(),
        Err(ShapeError::EmptyShape("Empty".to_string()))
    );
}

#[test]
fn two_unnamed_fields_rejected() {
    let descriptor = TypeDescriptor {
        ident: "Pair".to_string(),
        generics: Vec::new(),
        shape: Shape::Struct(FieldList::Unnamed(vec![
            Field {
                name: None,
                ty: "u32".to_string(),
            },
            Field {
                name: None,
                ty: "u32".to_string(),
            },
        ])),
    };
    let value_object = ValueObject::new(default_attributes(), descriptor);
    assert_eq!(
        value_object.validate(),
        Err(ShapeError::FieldCount("Pair".to_string(), 2))
    );
    assert_eq!(
        value_object.generate(),
        Err(ShapeError::FieldCount("Pair".to_string(), 2))
    );
}

#[test]
fn zero_named_fields_rejected() {
    let descriptor = TypeDescriptor {
        ident: "Bare".to_string(),
        generics: Vec::new(),
        shape: Shape::Struct(FieldList::Named(Vec::new())),
    };
    let value_object = ValueObject::new(default_attributes(), descriptor);
    assert_eq!(
        value_object.validate(),
        Err(ShapeError::FieldCount("Bare".to_string(), 0))
    );
}

#[test]
fn resolve_returns_unnamed_field_type() {
    let value_object = ValueObject::new(
        default_attributes(),
        unnamed_single_field("Amount", "u64"),
    );
    assert_eq!(value_object.get_internal_type(), Ok("u64".to_string()));
}

#[test]
fn resolve_returns_named_field_type() {
    let descriptor = TypeDescriptor {
        ident: "Email".to_string(),
        generics: Vec::new(),
        shape: Shape::Struct(FieldList::Named(vec![Field {
            name: Some("address".to_string()),
            ty: "String".to_string(),
        }])),
    };
    let value_object = ValueObject::new(default_attributes(), descriptor);
    assert_eq!(value_object.get_internal_type(), Ok("String".to_string()));
}

#[test]
fn parse_default_enabled_for_i32() {
    let value_object =
        ValueObject::new(default_attributes(), unnamed_single_field("Count", "i32"));
    let units = value_object.generate().unwrap();
    assert!(kinds_of(&units).contains(&CapabilityKind::Parse));
}

#[test]
fn parse_default_disabled_for_custom_type() {
    let value_object = ValueObject::new(
        default_attributes(),
        unnamed_single_field("Wrapped", "MyCustomType"),
    );
    let units = value_object.generate().unwrap();
    assert!(!kinds_of(&units).contains(&CapabilityKind::Parse));
}

#[test]
fn parse_forced_on_for_custom_type() {
    let mut attributes = default_attributes();
    attributes.from_str_derive = Some(true);
    let value_object =
        ValueObject::new(attributes, unnamed_single_field("Wrapped", "MyCustomType"));
    let units = value_object.generate().unwrap();
    assert!(kinds_of(&units).contains(&CapabilityKind::Parse));
}

#[test]
fn parse_forced_off_for_i32() {
    let mut attributes = default_attributes();
    attributes.from_str_derive = Some(false);
    let value_object = ValueObject::new(attributes, unnamed_single_field("Count", "i32"));
    let units = value_object.generate().unwrap();
    assert!(!kinds_of(&units).contains(&CapabilityKind::Parse));
}

#[test]
fn serde_disabled_drops_serialization_unit() {
    let mut attributes = default_attributes();
    attributes.serde_derive = Some(false);
    let value_object = ValueObject::new(attributes, unnamed_single_field("Value", "String"));
    let units = value_object.generate().unwrap();
    assert_eq!(
        kinds_of(&units),
        vec![
            CapabilityKind::Display,
            CapabilityKind::Conversion,
            CapabilityKind::Parse,
        ]
    );
}

#[test]
fn display_disabled_drops_display_unit() {
    let mut attributes = default_attributes();
    attributes.display_derive = Some(false);
    let value_object = ValueObject::new(attributes, unnamed_single_field("Value", "String"));
    let units = value_object.generate().unwrap();
    assert_eq!(
        kinds_of(&units),
        vec![
            CapabilityKind::Serialization,
            CapabilityKind::Conversion,
            CapabilityKind::Parse,
        ]
    );
}

#[test]
fn try_from_disabled_drops_conversion_unit() {
    let mut attributes = default_attributes();
    attributes.try_from_derive = Some(false);
    let value_object = ValueObject::new(attributes, unnamed_single_field("Value", "String"));
    let units = value_object.generate().unwrap();
    assert_eq!(
        kinds_of(&units),
        vec![
            CapabilityKind::Serialization,
            CapabilityKind::Display,
            CapabilityKind::Parse,
        ]
    );
}

#[test]
fn custom_namespace_is_used_verbatim() {
    let mut attributes = default_attributes();
    attributes.serde_crate = Some("my_serde".to_string());
    let value_object = ValueObject::new(attributes, unnamed_single_field("Value", "String"));
    let units = value_object.generate().unwrap();
    match &units[0] {
        GeneratedUnit::Serialization { namespace, .. } => assert_eq!(namespace, "my_serde"),
        other => panic!("expected a serialization unit, got {:?}", other),
    }
}

#[test]
fn generate_twice_is_identical() {
    let value_object = ValueObject::new(
        default_attributes(),
        unnamed_single_field("Value", "String"),
    );
    let first = value_object.generate();
    let second = value_object.generate();
    assert_eq!(first, second);
}

#[test]
fn all_primitive_names_enable_parse_by_default() {
    let names = [
        "bool", "char", "f32", "f64", "i8", "i16", "i32", "i64", "i128", "isize", "u8", "u16",
        "u32", "u64", "u128", "usize", "String",
    ];
    for name in names {
        let value_object =
            ValueObject::new(default_attributes(), unnamed_single_field("Wrapped", name));
        let units = value_object.generate().unwrap();
        assert!(
            kinds_of(&units).contains(&CapabilityKind::Parse),
            "parse unit missing for inner type {}",
            name
        );
    }
}
