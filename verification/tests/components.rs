use json_reflect_asset::{
    downcast, reflect_deserialize, FieldKind, FieldSchema, FieldValue, JsonReflectAssetPlugin,
    JsonValue, ReflectLoaderError, ReflectedValue, SchemaError, TypeDescriptor, TypeRegistry,
};

fn point_descriptor() -> TypeDescriptor {
    TypeDescriptor {
        id: 7,
        fields: vec![
            FieldSchema { name: "x".to_string(), kind: FieldKind::Int },
            FieldSchema { name: "y".to_string(), kind: FieldKind::Int },
        ],
    }
}

#[test]
fn extensions_are_returned_unchanged() {
    let loader =
        json_reflect_asset::ReflectionAssetLoader::new(7, &["point.json", "pt.json"]);
    assert_eq!(loader.extensions(), &["point.json", "pt.json"]);
    assert_eq!(loader.extensions(), &["point.json", "pt.json"]);
}

#[test]
fn plugin_hands_its_extensions_to_the_loader() {
    let plugin: JsonReflectAssetPlugin<u8> = JsonReflectAssetPlugin::new(&["a.json", "b.json"]);
    let loader = plugin.build_loader(3);
    assert_eq!(loader.extensions(), &["a.json", "b.json"]);
}

#[test]
fn reflected_fields_come_in_layout_order() {
    let descriptor = point_descriptor();
    let value = JsonValue::Obj(vec![
        ("y".to_string(), JsonValue::Int(2)),
        ("x".to_string(), JsonValue::Int(1)),
    ]);
    let r = reflect_deserialize(&descriptor, &value).unwrap();
    assert_eq!(
        r.fields,
        vec![
            ("x".to_string(), FieldValue::Int(1)),
            ("y".to_string(), FieldValue::Int(2)),
        ]
    );
}

#[test]
fn deserialize_rejects_a_scalar_root() {
    let descriptor = point_descriptor();
    let r = reflect_deserialize(&descriptor, &JsonValue::Int(5));
    assert_eq!(r, Err(SchemaError::NotAnObject));
}

#[test]
fn first_binding_of_a_key_wins() {
    let descriptor = point_descriptor();
    let value = JsonValue::Obj(vec![
        ("x".to_string(), JsonValue::Int(1)),
        ("y".to_string(), JsonValue::Int(2)),
        ("x".to_string(), JsonValue::Int(9)),
    ]);
    let r = reflect_deserialize(&descriptor, &value).unwrap();
    assert_eq!(r.fields[0], ("x".to_string(), FieldValue::Int(1)));
}

#[test]
fn downcast_keeps_a_matching_value() {
    let value = ReflectedValue { type_id: 4, fields: vec![] };
    assert_eq!(downcast(value.clone(), 4), Ok(value));
}

#[test]
fn downcast_rejects_a_mismatched_identity() {
    let value = ReflectedValue { type_id: 4, fields: vec![] };
    assert_eq!(downcast(value, 5), Err(ReflectLoaderError::FailedToDowncast));
}

#[test]
fn registry_lookup_finds_the_filed_descriptor() {
    let mut registry = TypeRegistry::new();
    registry.register(7, point_descriptor());
    assert!(registry.get(7).is_some());
    assert_eq!(registry.get(7).unwrap().fields.len(), 2);
    assert!(registry.get(8).is_none());
}

#[test]
fn empty_schema_needs_an_empty_object() {
    let descriptor = TypeDescriptor { id: 1, fields: vec![] };
    let empty = reflect_deserialize(&descriptor, &JsonValue::Obj(vec![]));
    assert_eq!(empty, Ok(ReflectedValue { type_id: 1, fields: vec![] }));
    let full = reflect_deserialize(
        &descriptor,
        &JsonValue::Obj(vec![("x".to_string(), JsonValue::Int(1))]),
    );
    assert_eq!(full, Err(SchemaError::UnknownField));
}
