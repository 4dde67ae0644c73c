use json_reflect_asset::{
    FieldKind, FieldSchema, FieldValue, ReflectLoaderError, ReflectionAssetLoader, SchemaError,
    TypeDescriptor, TypeRegistry,
};

const POINT_ID: u64 = 7;

fn point_descriptor() -> TypeDescriptor {
    TypeDescriptor {
        id: POINT_ID,
        fields: vec![
            FieldSchema { name: "x".to_string(), kind: FieldKind::Int },
            FieldSchema { name: "y".to_string(), kind: FieldKind::Int },
        ],
    }
}

fn point_registry() -> TypeRegistry {
    let mut registry = TypeRegistry::new();
    registry.register(POINT_ID, point_descriptor());
    registry
}

fn point_loader() -> ReflectionAssetLoader {
    ReflectionAssetLoader::new(POINT_ID, &["point.json"])
}

#[test]
fn point_decodes() {
    let registry = point_registry();
    let loader = point_loader();
    let r = loader.load(b"{\"x\":1,\"y\":2}", &registry);
    let expected = json_reflect_asset::ReflectedValue {
        type_id: POINT_ID,
        fields: vec![
            ("x".to_string(), FieldValue::Int(1)),
            ("y".to_string(), FieldValue::Int(2)),
        ],
    };
    assert_eq!(r, Ok(expected));
}

#[test]
fn missing_field_is_schema_mismatch() {
    let registry = point_registry();
    let loader = point_loader();
    let r = loader.load(b"{\"x\":1}", &registry);
    assert_eq!(r, Err(ReflectLoaderError::SchemaMismatch(SchemaError::MissingField)));
}

#[test]
fn malformed_bytes_are_a_parse_error() {
    let registry = point_registry();
    let loader = point_loader();
    let r = loader.load(b"not json", &registry);
    assert!(matches!(r, Err(ReflectLoaderError::JsonError(_))));
}

#[test]
fn unregistered_type_is_reported() {
    let registry = TypeRegistry::new();
    let loader = point_loader();
    let r = loader.load(b"{\"x\":1,\"y\":2}", &registry);
    assert_eq!(r, Err(ReflectLoaderError::TypeNotRegistered));
}

#[test]
fn malformed_bytes_beat_a_missing_registration() {
    let registry = TypeRegistry::new();
    let loader = point_loader();
    let r = loader.load(b"{oops", &registry);
    assert!(matches!(r, Err(ReflectLoaderError::JsonError(_))));
}

#[test]
fn decode_is_idempotent() {
    let registry = point_registry();
    let loader = point_loader();
    let bytes = b"{\"x\":-3,\"y\":40}";
    let first = loader.load(bytes, &registry);
    let second = loader.load(bytes, &registry);
    assert_eq!(first, second);
    assert!(first.is_ok());
}

#[test]
fn failed_decodes_repeat_too() {
    let registry = point_registry();
    let loader = point_loader();
    let first = loader.load(b"{\"x\":1}", &registry);
    let second = loader.load(b"{\"x\":1}", &registry);
    assert_eq!(first, second);
}

#[test]
fn wrong_scalar_kind_is_schema_mismatch() {
    let registry = point_registry();
    let loader = point_loader();
    let r = loader.load(b"{\"x\":true,\"y\":2}", &registry);
    assert_eq!(r, Err(ReflectLoaderError::SchemaMismatch(SchemaError::WrongKind)));
}

#[test]
fn unknown_key_is_schema_mismatch() {
    let registry = point_registry();
    let loader = point_loader();
    let r = loader.load(b"{\"x\":1,\"y\":2,\"z\":3}", &registry);
    assert_eq!(r, Err(ReflectLoaderError::SchemaMismatch(SchemaError::UnknownField)));
}

#[test]
fn non_object_is_schema_mismatch() {
    let registry = point_registry();
    let loader = point_loader();
    let r = loader.load(b"[1,2]", &registry);
    assert_eq!(r, Err(ReflectLoaderError::SchemaMismatch(SchemaError::NotAnObject)));
}

#[test]
fn nested_value_in_scalar_field_is_schema_mismatch() {
    let registry = point_registry();
    let loader = point_loader();
    let r = loader.load(b"{\"x\":{\"a\":1},\"y\":2}", &registry);
    assert_eq!(r, Err(ReflectLoaderError::SchemaMismatch(SchemaError::WrongKind)));
}

#[test]
fn non_integer_number_is_a_parse_error() {
    let registry = point_registry();
    let loader = point_loader();
    let r = loader.load(b"{\"x\":1.5,\"y\":2}", &registry);
    assert!(matches!(r, Err(ReflectLoaderError::JsonError(_))));
}

#[test]
fn aliased_registration_fails_the_downcast() {
    let mut registry = TypeRegistry::new();
    let mut descriptor = point_descriptor();
    descriptor.id = POINT_ID + 1;
    registry.register(POINT_ID, descriptor);
    let loader = point_loader();
    let r = loader.load(b"{\"x\":1,\"y\":2}", &registry);
    assert_eq!(r, Err(ReflectLoaderError::FailedToDowncast));
}

#[test]
fn earliest_registration_wins() {
    let mut registry = point_registry();
    registry.register(
        POINT_ID,
        TypeDescriptor {
            id: POINT_ID,
            fields: vec![FieldSchema { name: "only".to_string(), kind: FieldKind::Bool }],
        },
    );
    let loader = point_loader();
    let r = loader.load(b"{\"x\":1,\"y\":2}", &registry);
    assert!(r.is_ok());
}

#[test]
fn decode_follows_the_bytes() {
    let registry = point_registry();
    let loader = point_loader();
    let a = loader.load(b"{\"x\":1,\"y\":2}", &registry).unwrap();
    let b = loader.load(b"{\"x\":30,\"y\":-4}", &registry).unwrap();
    assert_eq!(a.fields[0].1, FieldValue::Int(1));
    assert_eq!(b.fields[0].1, FieldValue::Int(30));
    assert_ne!(a, b);
}

#[test]
fn mixed_scalar_kinds_decode() {
    let mut registry = TypeRegistry::new();
    registry.register(
        9,
        TypeDescriptor {
            id: 9,
            fields: vec![
                FieldSchema { name: "name".to_string(), kind: FieldKind::Str },
                FieldSchema { name: "active".to_string(), kind: FieldKind::Bool },
            ],
        },
    );
    let loader = ReflectionAssetLoader::new(9, &["unit.json"]);
    let r = loader.load(b"{\"active\":true,\"name\":\"ada\"}", &registry).unwrap();
    assert_eq!(r.type_id, 9);
    assert_eq!(
        r.fields,
        vec![
            ("name".to_string(), FieldValue::Str("ada".to_string())),
            ("active".to_string(), FieldValue::Bool(true)),
        ]
    );
}

#[test]
fn registration_between_loads_is_seen() {
    let mut registry = TypeRegistry::new();
    let loader = point_loader();
    let before = loader.load(b"{\"x\":1,\"y\":2}", &registry);
    assert_eq!(before, Err(ReflectLoaderError::TypeNotRegistered));
    registry.register(POINT_ID, point_descriptor());
    let after = loader.load(b"{\"x\":1,\"y\":2}", &registry);
    assert!(after.is_ok());
}
