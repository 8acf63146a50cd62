use event_store::attrs::{
    attributes_map, get_attribute_ident, AttrPath, Attribute, Lit, Meta, NestedMeta, TokenTree,
};
use event_store::derive::{
    creation_events_const_name, expand_derive_namespace, get_enum_event_attributes,
    get_enum_struct_names, get_variant_event_attributes, struct_const_name, Data, DataEnum,
    DataStruct, DeriveInput, DeriveTarget, EnumInfo, Field, Fields, StructInfo, Variant,
};

fn path(segments: &[&str]) -> AttrPath {
    AttrPath { leading_colon: false, segments: segments.iter().map(|s| s.to_string()).collect() }
}

/// `#[event_store(name = "value", ...)]`
fn event_store_attr(pairs: &[(&str, &str)]) -> Attribute {
    let mut inner = Vec::new();
    let mut items = Vec::new();
    for (i, (name, value)) in pairs.iter().enumerate() {
        if i > 0 {
            inner.push(TokenTree::Punct(','));
        }
        inner.push(TokenTree::Ident(name.to_string()));
        inner.push(TokenTree::Punct('='));
        inner.push(TokenTree::Literal(format!("\"{}\"", value)));
        items.push(NestedMeta::NameValue { name: name.to_string(), lit: Lit::Str(value.to_string()) });
    }
    Attribute {
        path: path(&["event_store"]),
        tokens: vec![TokenTree::Group(inner)],
        meta: Ok(Meta::List(items)),
    }
}

fn serde_attr() -> Attribute {
    Attribute {
        path: path(&["serde"]),
        tokens: vec![TokenTree::Group(vec![
            TokenTree::Ident("rename".to_string()),
            TokenTree::Punct('='),
            TokenTree::Literal("\"other\"".to_string()),
        ])],
        meta: Ok(Meta::List(vec![NestedMeta::NameValue {
            name: "rename".to_string(),
            lit: Lit::Str("other".to_string()),
        }])),
    }
}

#[test]
fn it_works() {
    assert_eq!(2 + 2, 4);
}

#[test]
fn attribute_ident_is_read_with_quotes_trimmed() {
    let attrs = vec![serde_attr(), event_store_attr(&[("namespace", "store")])];
    assert_eq!(get_attribute_ident(&attrs, "namespace"), Some("store".to_string()));
    assert_eq!(get_attribute_ident(&attrs, "rename"), None);
}

#[test]
fn attribute_ident_ignores_other_attributes() {
    let attrs = vec![serde_attr()];
    assert_eq!(get_attribute_ident(&attrs, "rename"), None);
}

#[test]
fn attribute_ident_takes_the_first_attribute_that_sets_it() {
    let attrs = vec![
        event_store_attr(&[("rename", "First")]),
        event_store_attr(&[("rename", "Second")]),
    ];
    assert_eq!(get_attribute_ident(&attrs, "rename"), Some("First".to_string()));
}

#[test]
fn attribute_ident_only_reads_the_first_pair_of_a_group() {
    let attrs = vec![event_store_attr(&[("namespace", "ns"), ("rename", "R")])];
    assert_eq!(get_attribute_ident(&attrs, "namespace"), Some("ns".to_string()));
    assert_eq!(get_attribute_ident(&attrs, "rename"), None);
}

#[test]
fn attributes_map_reads_all_pairs() {
    let attrs = vec![event_store_attr(&[("event_namespace", "store"), ("entity_type", "thing")])];
    let m = attributes_map(&attrs).ok().unwrap();
    assert_eq!(m.get("event_namespace"), Some("store".to_string()));
    assert_eq!(m.get("entity_type"), Some("thing".to_string()));
    assert_eq!(m.get("event_type"), None);
}

#[test]
fn attributes_map_keeps_the_last_value_of_a_repeated_key() {
    let attrs = vec![event_store_attr(&[("entity_type", "a"), ("entity_type", "b")])];
    let m = attributes_map(&attrs).ok().unwrap();
    assert_eq!(m.get("entity_type"), Some("b".to_string()));
}

#[test]
fn attributes_map_without_attribute() {
    let attrs = vec![serde_attr()];
    assert_eq!(
        attributes_map(&attrs).err().unwrap(),
        "Failed to find attribute event_store for event_store"
    );
}

#[test]
fn attributes_map_rejects_non_string_values() {
    let attrs = vec![Attribute {
        path: path(&["event_store"]),
        tokens: vec![],
        meta: Ok(Meta::List(vec![NestedMeta::NameValue {
            name: "entity_type".to_string(),
            lit: Lit::Other,
        }])),
    }];
    assert_eq!(
        attributes_map(&attrs).err().unwrap(),
        "Value for property entity_type must be a string"
    );
}

#[test]
fn attributes_map_rejects_items_that_are_not_pairs() {
    let attrs = vec![Attribute {
        path: path(&["event_store"]),
        tokens: vec![],
        meta: Ok(Meta::List(vec![NestedMeta::Other])),
    }];
    assert_eq!(
        attributes_map(&attrs).err().unwrap(),
        "Attribute properties must be a list of key/value pairs"
    );
}

#[test]
fn attributes_map_rejects_metadata_that_is_not_a_list() {
    let attrs = vec![Attribute { path: path(&["event_store"]), tokens: vec![], meta: Ok(Meta::Path) }];
    assert_eq!(
        attributes_map(&attrs).err().unwrap(),
        "Metadata must be a list like 'event_namespace = \"foo_bar\"'"
    );
}

#[test]
fn attributes_map_passes_on_parse_errors() {
    let attrs = vec![Attribute {
        path: path(&["event_store"]),
        tokens: vec![],
        meta: Err("expected literal".to_string()),
    }];
    assert_eq!(attributes_map(&attrs).err().unwrap(), "expected literal");
}

fn field(name: &str, ty: &str) -> Field {
    Field { ident: Some(name.to_string()), ty: ty.to_string() }
}

fn struct_input(attrs: Vec<Attribute>) -> DeriveInput {
    DeriveInput {
        ident: "ThingCreated".to_string(),
        attrs,
        data: Data::Struct(DataStruct {
            fields: Fields::Named(vec![field("foo", "String"), field("bar", "u32")]),
        }),
    }
}

#[test]
fn struct_info_reads_names() {
    let input = struct_input(vec![event_store_attr(&[("namespace", "store")])]);
    let body = match &input.data {
        Data::Struct(b) => b,
        _ => unreachable!(),
    };
    let info = StructInfo::new(&input, body);
    assert_eq!(info.struct_namespace, "store");
    assert_eq!(info.struct_namespace_quoted, "store");
    assert_eq!(info.item_ident, "ThingCreated");
    assert_eq!(info.item_ident_quoted, "ThingCreated");
    assert_eq!(info.renamed_item_ident, "ThingCreated");
    assert_eq!(info.namespace_and_type, "store.ThingCreated");
    assert_eq!(info.renamed_namespace_and_type, "store.ThingCreated");
    assert_eq!(info.field_idents, vec!["foo".to_string(), "bar".to_string()]);
    assert_eq!(info.fields.len(), 2);
}

#[test]
fn struct_info_uses_rename() {
    let input = struct_input(vec![
        event_store_attr(&[("namespace", "store")]),
        event_store_attr(&[("rename", "ThingMade")]),
    ]);
    let body = match &input.data {
        Data::Struct(b) => b,
        _ => unreachable!(),
    };
    let info = StructInfo::new(&input, body);
    assert_eq!(info.renamed_item_ident, "ThingMade");
    assert_eq!(info.renamed_item_ident_quoted, "ThingMade");
    assert_eq!(info.namespace_and_type, "store.ThingCreated");
    assert_eq!(info.renamed_namespace_and_type, "store.ThingMade");
}

fn variant(name: &str, attrs: Vec<Attribute>, ty: &str) -> Variant {
    Variant {
        ident: name.to_string(),
        attrs,
        fields: Fields::Unnamed(vec![Field { ident: None, ty: ty.to_string() }]),
    }
}

fn example_enum(attrs: Vec<Attribute>) -> DeriveInput {
    DeriveInput {
        ident: "ExampleEvents".to_string(),
        attrs,
        data: Data::Enum(DataEnum {
            variants: vec![
                variant(
                    "ThingCreated",
                    vec![event_store_attr(&[
                        ("event_namespace", "store"),
                        ("event_type", "ThingCreated"),
                        ("entity_type", "thing"),
                    ])],
                    "Event<ThingCreated>",
                ),
                variant(
                    "ThingUpdated",
                    vec![event_store_attr(&[("rename", "ThingChanged")])],
                    "Event<ThingUpdated>",
                ),
            ],
        }),
    }
}

fn enum_body(input: &DeriveInput) -> &DataEnum {
    match &input.data {
        Data::Enum(b) => b,
        _ => unreachable!(),
    }
}

#[test]
fn enum_info_reads_variant_names() {
    let input = example_enum(vec![]);
    let info = EnumInfo::new(&input, enum_body(&input));
    assert_eq!(info.item_ident, "ExampleEvents");
    assert_eq!(info.variant_idents, vec!["ThingCreated".to_string(), "ThingUpdated".to_string()]);
    assert_eq!(
        info.renamed_variant_idents,
        vec!["ThingCreated".to_string(), "ThingChanged".to_string()]
    );
}

#[test]
fn enum_struct_names_are_the_first_field_types() {
    let input = example_enum(vec![]);
    assert_eq!(
        get_enum_struct_names(enum_body(&input)),
        vec!["Event<ThingCreated>".to_string(), "Event<ThingUpdated>".to_string()]
    );
}

#[test]
fn enum_event_attributes_are_read() {
    let input = example_enum(vec![event_store_attr(&[
        ("event_namespace", "store"),
        ("entity_type", "thing"),
    ])]);
    let ext = get_enum_event_attributes(&input, enum_body(&input)).ok().unwrap();
    assert_eq!(ext.ident, "ExampleEvents");
    assert_eq!(ext.event_store_attributes.event_namespace, "store");
    assert_eq!(ext.event_store_attributes.entity_type, "thing");
}

#[test]
fn enum_event_attributes_require_a_namespace() {
    let input = example_enum(vec![event_store_attr(&[("entity_type", "thing")])]);
    assert_eq!(
        get_enum_event_attributes(&input, enum_body(&input)).err().unwrap(),
        "Failed to find attribute property event_namespace for ExampleEvents"
    );
}

#[test]
fn enum_event_attributes_require_an_entity_type() {
    let input = example_enum(vec![event_store_attr(&[("event_namespace", "store")])]);
    assert_eq!(
        get_enum_event_attributes(&input, enum_body(&input)).err().unwrap(),
        "Failed to find attribute property entity_type for ExampleEvents"
    );
}

#[test]
fn enum_event_attributes_require_the_attribute() {
    let input = example_enum(vec![]);
    assert_eq!(
        get_enum_event_attributes(&input, enum_body(&input)).err().unwrap(),
        "Failed to find attribute event_store for event_store"
    );
}

#[test]
fn variant_event_attributes_are_read() {
    let input = example_enum(vec![]);
    let v = &enum_body(&input).variants[0];
    let ext = get_variant_event_attributes(v).ok().unwrap();
    assert_eq!(ext.variant.ident, "ThingCreated");
    assert_eq!(ext.event_store_attributes.event_type, "ThingCreated");
    assert_eq!(ext.event_store_attributes.event_namespace, Some("store".to_string()));
    assert_eq!(ext.event_store_attributes.entity_type, Some("thing".to_string()));
}

#[test]
fn variant_event_attributes_require_an_event_type() {
    let input = example_enum(vec![]);
    let v = &enum_body(&input).variants[1];
    assert_eq!(
        get_variant_event_attributes(v).err().unwrap(),
        "Failed to find event_type property on ThingUpdated"
    );
}

#[test]
fn derive_target_follows_the_item_kind() {
    assert!(matches!(expand_derive_namespace(&example_enum(vec![])), DeriveTarget::Enum));
    assert!(matches!(expand_derive_namespace(&struct_input(vec![])), DeriveTarget::Struct));
}

#[test]
fn hidden_constant_names() {
    assert_eq!(creation_events_const_name("ExampleEvents"), "_IMPL_EVENT_STORE_CREATION_EVENTS_ExampleEvents");
    assert_eq!(struct_const_name("ThingCreated"), "_IMPL_EVENT_STORE_STRUCT_FOR_ThingCreated");
}
