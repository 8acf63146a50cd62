//! What the `Events` derive reads from the item it is applied to.
use vstd::prelude::*;
use crate::attrs::{
    attribute_ident, attributes_map, attributes_map_spec, lemma_attributes_map_skips_other_paths,
    path_is_ident, Attribute,
};
use crate::text::opt_view;

verus! {

/// A field of a struct or of an enum variant.
#[derive(Debug)]
pub struct Field {
    /// The field's name; `None` for a tuple field
    pub ident: Option<String>,
    /// The field's type, as written
    pub ty: String,
}

/// The fields of a struct or of an enum variant.
#[derive(Debug)]
pub enum Fields {
    /// Named fields, like `{ a: u32 }`
    Named(Vec<Field>),
    /// Tuple fields, like `(u32, String)`
    Unnamed(Vec<Field>),
    /// No fields
    Unit,
}

/// A variant of an enum.
#[derive(Debug)]
pub struct Variant {
    /// The variant's name
    pub ident: String,
    /// The variant's attributes
    pub attrs: Vec<Attribute>,
    /// The variant's fields
    pub fields: Fields,
}

/// The body of a struct.
#[derive(Debug)]
pub struct DataStruct {
    /// The struct's fields
    pub fields: Fields,
}

/// The body of an enum.
#[derive(Debug)]
pub struct DataEnum {
    /// The enum's variants
    pub variants: Vec<Variant>,
}

/// The body of the item a derive is applied to.
#[derive(Debug)]
pub enum Data {
    /// A struct
    Struct(DataStruct),
    /// An enum
    Enum(DataEnum),
    /// A union
    Union,
}

/// The item a derive is applied to.
#[derive(Debug)]
pub struct DeriveInput {
    /// The item's name
    pub ident: String,
    /// The item's attributes
    pub attrs: Vec<Attribute>,
    /// The item's body
    pub data: Data,
}

/// The fields listed by `fields`, in order (none for a unit body).
pub open spec fn field_list(fields: Fields) -> Seq<Field> {
    match fields {
        Fields::Named(v) => v@,
        Fields::Unnamed(v) => v@,
        Fields::Unit => Seq::empty(),
    }
}

/// The names of the named fields among `fields`, in order.
pub open spec fn field_names(fields: Seq<Field>) -> Seq<Seq<char>>
    decreases fields.len(),
{
    if fields.len() == 0 {
        Seq::empty()
    } else {
        let rest = field_names(fields.drop_last());
        match fields.last().ident {
            Some(name) => rest.push(name@),
            None => rest,
        }
    }
}

/// `name`, or `fallback` where `name` is absent.
pub open spec fn name_or(name: Option<Seq<char>>, fallback: Seq<char>) -> Seq<char> {
    match name {
        Some(n) => n,
        None => fallback,
    }
}

/// `namespace.name`.
pub open spec fn dotted(namespace: Seq<char>, name: Seq<char>) -> Seq<char> {
    namespace + "."@ + name
}

/// Names read from a struct that the `Events` derive is applied to.
pub struct StructInfo<'a> {
    /// Names of the struct's fields
    pub field_idents: Vec<String>,
    /// The struct's named fields
    pub fields: &'a Vec<Field>,
    /// The struct's name
    pub item_ident: String,
    /// The struct's name, as text
    pub item_ident_quoted: String,
    /// `namespace.StructName`
    pub namespace_and_type: String,
    /// The name the struct is stored under (its `rename`, or its own name)
    pub renamed_item_ident: String,
    /// The stored name, as text
    pub renamed_item_ident_quoted: String,
    /// `namespace.StoredName`
    pub renamed_namespace_and_type: String,
    /// The struct's body
    pub struct_body: &'a DataStruct,
    /// The struct's namespace
    pub struct_namespace: String,
    /// The struct's namespace, as text
    pub struct_namespace_quoted: String,
}

/// `a` followed by `.` and `b`.
pub fn join_dotted(a: &str, b: &str) -> (r: String)
    ensures
        r@ == dotted(a@, b@),
{
    let mut s = String::from_str(a);
    s.append(".");
    s.append(b);
    s
}

fn clone_opt(o: &Option<String>) -> (r: Option<String>)
    ensures
        r == *o,
{
    match o {
        Some(s) => Some(s.clone()),
        None => None,
    }
}

fn collect_field_names(fields: &Vec<Field>) -> (r: Vec<String>)
    ensures
        r@.map_values(|s: String| s@) == field_names(fields@),
{
    let mut out: Vec<String> = Vec::new();
    let mut i: usize = 0;
    while i < fields.len()
        invariant
            i <= fields@.len(),
            out@.map_values(|s: String| s@) == field_names(fields@.take(i as int)),
        decreases fields@.len() - i,
    {
        proof {
            assert(fields@.take(i as int + 1).drop_last() =~= fields@.take(i as int));
        }
        match &fields[i].ident {
            Some(name) => {
                let ghost before = out@;
                out.push(name.clone());
                assert(out@.map_values(|s: String| s@) =~= before.map_values(|s: String| s@).push(
                    name@,
                ));
            },
            None => {},
        }
        i = i + 1;
    }
    assert(fields@.take(fields@.len() as int) =~= fields@);
    out
}

impl<'a> StructInfo<'a> {
    /// Reads the names that the derive needs from a struct with named fields
    /// and an `#[event_store(namespace = "...")]` attribute.
    pub fn new(parsed: &'a DeriveInput, struct_body: &'a DataStruct) -> (r: StructInfo<'a>)
        requires
            attribute_ident(parsed.attrs@, "namespace"@) is Some,
            struct_body.fields is Named,
        ensures
            ({
                let ns = attribute_ident(parsed.attrs@, "namespace"@).unwrap();
                let renamed = name_or(attribute_ident(parsed.attrs@, "rename"@), parsed.ident@);
                &&& r.struct_namespace@ == ns
                &&& r.struct_namespace_quoted@ == ns
                &&& r.item_ident@ == parsed.ident@
                &&& r.item_ident_quoted@ == parsed.ident@
                &&& r.renamed_item_ident@ == renamed
                &&& r.renamed_item_ident_quoted@ == renamed
                &&& r.namespace_and_type@ == dotted(ns, parsed.ident@)
                &&& r.renamed_namespace_and_type@ == dotted(ns, renamed)
                &&& r.fields@ == field_list(struct_body.fields)
                &&& r.field_idents@.map_values(|s: String| s@) == field_names(
                    field_list(struct_body.fields),
                )
                &&& r.struct_body == struct_body
            }),
    {
        let struct_namespace = match crate::attrs::get_attribute_ident(&parsed.attrs, "namespace") {
            Some(ns) => ns,
            None => vstd::pervasive::unreached(),
        };
        let struct_rename = crate::attrs::get_attribute_ident(&parsed.attrs, "rename");
        let item_ident = parsed.ident.clone();
        let renamed_item_ident = match struct_rename {
            Some(name) => name,
            None => item_ident.clone(),
        };
        let fields = match &struct_body.fields {
            Fields::Named(f) => f,
            _ => vstd::pervasive::unreached(),
        };
        let field_idents = collect_field_names(fields);
        let namespace_and_type = join_dotted(struct_namespace.as_str(), item_ident.as_str());
        let renamed_namespace_and_type = join_dotted(
            struct_namespace.as_str(),
            renamed_item_ident.as_str(),
        );
        let item_ident_quoted = item_ident.clone();
        let struct_namespace_quoted = struct_namespace.clone();
        let renamed_item_ident_quoted = renamed_item_ident.clone();
        StructInfo {
            field_idents,
            fields,
            item_ident,
            item_ident_quoted,
            namespace_and_type,
            renamed_item_ident,
            renamed_item_ident_quoted,
            renamed_namespace_and_type,
            struct_body,
            struct_namespace,
            struct_namespace_quoted,
        }
    }
}

} // verus!

verus! {

/// Names read from an enum that the `Events` derive is applied to.
pub struct EnumInfo<'a> {
    /// The enum's name
    pub item_ident: String,
    /// The enum's body
    pub enum_body: &'a DataEnum,
    /// The names of the enum's variants
    pub variant_idents: Vec<String>,
    /// The names the variants are stored under (each one's `rename`, or its own name)
    pub renamed_variant_idents: Vec<String>,
}

/// The names of `variants`, in order.
pub open spec fn variant_names(variants: Seq<Variant>) -> Seq<Seq<char>> {
    variants.map_values(|v: Variant| v.ident@)
}

/// The stored names of `variants`: each one's `rename`, or its own name.
pub open spec fn renamed_variant_names(variants: Seq<Variant>) -> Seq<Seq<char>> {
    variants.map_values(|v: Variant| name_or(attribute_ident(v.attrs@, "rename"@), v.ident@))
}

impl<'a> EnumInfo<'a> {
    /// Reads the names of an enum and of its variants.
    pub fn new(input: &DeriveInput, enum_body: &'a DataEnum) -> (r: EnumInfo<'a>)
        ensures
            r.item_ident@ == input.ident@,
            r.enum_body == enum_body,
            r.variant_idents@.map_values(|s: String| s@) == variant_names(enum_body.variants@),
            r.renamed_variant_idents@.map_values(|s: String| s@) == renamed_variant_names(
                enum_body.variants@,
            ),
    {
        let item_ident = input.ident.clone();
        let mut variant_idents: Vec<String> = Vec::new();
        let mut renamed_variant_idents: Vec<String> = Vec::new();
        let n = enum_body.variants.len();
        let mut i: usize = 0;
        while i < n
            invariant
                n == enum_body.variants@.len(),
                i <= n,
                variant_idents@.len() == i,
                renamed_variant_idents@.len() == i,
                forall|k: int|
                    0 <= k < i ==> #[trigger] variant_idents@[k]@ == enum_body.variants@[k].ident@,
                forall|k: int|
                    0 <= k < i ==> #[trigger] renamed_variant_idents@[k]@ == name_or(
                        attribute_ident(enum_body.variants@[k].attrs@, "rename"@),
                        enum_body.variants@[k].ident@,
                    ),
            decreases n - i,
        {
            let v = &enum_body.variants[i];
            variant_idents.push(v.ident.clone());
            let renamed = match crate::attrs::get_attribute_ident(&v.attrs, "rename") {
                Some(name) => name,
                None => v.ident.clone(),
            };
            renamed_variant_idents.push(renamed);
            i = i + 1;
        }
        assert(variant_idents@.map_values(|s: String| s@) =~= variant_names(enum_body.variants@));
        assert(renamed_variant_idents@.map_values(|s: String| s@) =~= renamed_variant_names(
            enum_body.variants@,
        ));
        EnumInfo { item_ident, enum_body, variant_idents, renamed_variant_idents }
    }
}

/// The type of the first field of `v` (meaningful where it has one).
pub open spec fn first_field_type(v: Variant) -> Seq<char> {
    field_list(v.fields)[0].ty@
}

/// Returns, for each variant, the type of its first field: the event struct it wraps.
pub fn get_enum_struct_names(enum_body: &DataEnum) -> (r: Vec<String>)
    requires
        forall|i: int|
            0 <= i < enum_body.variants@.len() ==> field_list(
                #[trigger] enum_body.variants@[i].fields,
            ).len() > 0,
    ensures
        r@.map_values(|s: String| s@) == enum_body.variants@.map_values(
            |v: Variant| first_field_type(v),
        ),
{
    let mut out: Vec<String> = Vec::new();
    let n = enum_body.variants.len();
    let mut i: usize = 0;
    while i < n
        invariant
            n == enum_body.variants@.len(),
            i <= n,
            forall|k: int|
                0 <= k < enum_body.variants@.len() ==> field_list(
                    #[trigger] enum_body.variants@[k].fields,
                ).len() > 0,
            out@.len() == i,
            forall|k: int|
                0 <= k < i ==> #[trigger] out@[k]@ == first_field_type(enum_body.variants@[k]),
        decreases n - i,
    {
        let v = &enum_body.variants[i];
        let ty = match &v.fields {
            Fields::Named(f) => f[0].ty.clone(),
            Fields::Unnamed(f) => f[0].ty.clone(),
            Fields::Unit => vstd::pervasive::unreached(),
        };
        out.push(ty);
        i = i + 1;
    }
    assert(out@.map_values(|s: String| s@) =~= enum_body.variants@.map_values(
        |v: Variant| first_field_type(v),
    ));
    out
}

/// Which implementation the derive generates for an item.
#[derive(Debug)]
pub enum DeriveTarget {
    /// The implementation for an enum of events
    Enum,
    /// The implementation for a struct that is an event
    Struct,
}

/// Picks the implementation to generate: enums and structs are supported.
pub fn expand_derive_namespace(parsed: &DeriveInput) -> (r: DeriveTarget)
    requires
        !(parsed.data is Union),
    ensures
        parsed.data is Enum ==> r is Enum,
        parsed.data is Struct ==> r is Struct,
{
    match &parsed.data {
        Data::Enum(_) => DeriveTarget::Enum,
        Data::Struct(_) => DeriveTarget::Struct,
        Data::Union => vstd::pervasive::unreached(),
    }
}

/// The name of the hidden constant that holds an enum's generated implementations.
pub fn creation_events_const_name(item_ident: &str) -> (r: String)
    ensures
        r@ == "_IMPL_EVENT_STORE_CREATION_EVENTS_"@ + item_ident@,
{
    let mut s = String::from_str("_IMPL_EVENT_STORE_CREATION_EVENTS_");
    s.append(item_ident);
    s
}

/// The name of the hidden constant that holds a struct's generated implementations.
pub fn struct_const_name(item_ident: &str) -> (r: String)
    ensures
        r@ == "_IMPL_EVENT_STORE_STRUCT_FOR_"@ + item_ident@,
{
    let mut s = String::from_str("_IMPL_EVENT_STORE_STRUCT_FOR_");
    s.append(item_ident);
    s
}

} // verus!

verus! {

/// Attributes taken from the `#[event_store(...)]` attribute on an enum variant
#[derive(Debug)]
pub struct VariantEventStoreAttributes {
    /// Event type like `ThingUpdated`
    pub event_type: String,
    /// Event namespace override from enum definition
    pub event_namespace: Option<String>,
    /// Entity override from enum definition
    pub entity_type: Option<String>,
}

/// Attributes taken from the `#[event_store(...)]` attribute on an enum
#[derive(Debug)]
pub struct EnumEventStoreAttributes {
    /// Event namespace like `accounts` or `organisations`
    pub event_namespace: String,
    /// Entity type like `user` or `organisation`
    pub entity_type: String,
}

/// An enum together with its event store attributes.
pub struct EnumExt<'a> {
    /// The enum's name
    pub ident: String,
    /// The enum's body
    pub enum_body: &'a DataEnum,
    /// The enum's event store attributes
    pub event_store_attributes: EnumEventStoreAttributes,
}

/// A variant together with its event store attributes.
pub struct VariantExt<'a> {
    /// The variant
    pub variant: &'a Variant,
    /// The variant's event store attributes
    pub event_store_attributes: VariantEventStoreAttributes,
}

/// The message given when an enum lacks the property `property`.
pub open spec fn missing_enum_property_message(property: Seq<char>, ident: Seq<char>) -> Seq<char> {
    "Failed to find attribute property "@ + property + " for "@ + ident
}

/// What reading an enum's event store attributes gives: the namespace and the
/// entity type, or the first error met.
pub open spec fn enum_attributes_spec(attrs: Seq<Attribute>, ident: Seq<char>) -> Result<
    (Seq<char>, Seq<char>),
    Seq<char>,
> {
    match attributes_map_spec(attrs) {
        Err(e) => Err(e),
        Ok(m) => if !m.contains_key("event_namespace"@) {
            Err(missing_enum_property_message("event_namespace"@, ident))
        } else if !m.contains_key("entity_type"@) {
            Err(missing_enum_property_message("entity_type"@, ident))
        } else {
            Ok((m["event_namespace"@], m["entity_type"@]))
        },
    }
}

/// An enum's event store attributes read the same with or without attributes of
/// other paths (doc comments, `serde`, ...) before them.
pub proof fn lemma_enum_attributes_skip_other_paths(
    before: Seq<Attribute>,
    attrs: Seq<Attribute>,
    ident: Seq<char>,
)
    requires
        forall|j: int| 0 <= j < before.len() ==> !path_is_ident(#[trigger] before[j].path, "event_store"@),
    ensures
        enum_attributes_spec(before + attrs, ident) == enum_attributes_spec(attrs, ident),
        variant_attributes_spec(before + attrs, ident) == variant_attributes_spec(attrs, ident),
{
    lemma_attributes_map_skips_other_paths(before, attrs);
}

/// What reading a variant's event store attributes gives: its event type and
/// the optional namespace and entity type, or the first error met.
pub open spec fn variant_attributes_spec(attrs: Seq<Attribute>, ident: Seq<char>) -> Result<
    (Seq<char>, Option<Seq<char>>, Option<Seq<char>>),
    Seq<char>,
> {
    match attributes_map_spec(attrs) {
        Err(e) => Err(e),
        Ok(m) => if !m.contains_key("event_type"@) {
            Err("Failed to find event_type property on "@ + ident)
        } else {
            Ok(
                (
                    m["event_type"@],
                    if m.contains_key("event_namespace"@) {
                        Some(m["event_namespace"@])
                    } else {
                        None
                    },
                    if m.contains_key("entity_type"@) {
                        Some(m["entity_type"@])
                    } else {
                        None
                    },
                ),
            )
        },
    }
}

fn missing_property_error(property: &str, ident: &str) -> (r: String)
    ensures
        r@ == missing_enum_property_message(property@, ident@),
{
    let mut msg = String::from_str("Failed to find attribute property ");
    msg.append(property);
    msg.append(" for ");
    msg.append(ident);
    msg
}

/// Reads the `event_namespace` and `entity_type` properties of an enum's
/// `#[event_store(...)]` attribute; both are required.
pub fn get_enum_event_attributes<'a>(parsed: &'a DeriveInput, enum_body: &'a DataEnum) -> (r:
    Result<EnumExt<'a>, String>)
    ensures
        match (r, enum_attributes_spec(parsed.attrs@, parsed.ident@)) {
            (Ok(ext), Ok((ns, entity))) => {
                &&& ext.ident@ == parsed.ident@
                &&& ext.enum_body == enum_body
                &&& ext.event_store_attributes.event_namespace@ == ns
                &&& ext.event_store_attributes.entity_type@ == entity
            },
            (Err(e), Err(msg)) => e@ == msg,
            _ => false,
        },
{
    let ident = parsed.ident.clone();
    let keys_values = match attributes_map(&parsed.attrs) {
        Ok(m) => m,
        Err(e) => {
            return Err(e);
        },
    };
    let event_namespace = match keys_values.get("event_namespace") {
        Some(v) => v,
        None => {
            return Err(missing_property_error("event_namespace", ident.as_str()));
        },
    };
    let entity_type = match keys_values.get("entity_type") {
        Some(v) => v,
        None => {
            return Err(missing_property_error("entity_type", ident.as_str()));
        },
    };
    Ok(
        EnumExt {
            ident,
            enum_body,
            event_store_attributes: EnumEventStoreAttributes { event_namespace, entity_type },
        },
    )
}

/// Reads a variant's `#[event_store(...)]` attribute: `event_type` is required,
/// `event_namespace` and `entity_type` are optional.
pub fn get_variant_event_attributes(variant: &Variant) -> (r: Result<VariantExt, String>)
    ensures
        match (r, variant_attributes_spec(variant.attrs@, variant.ident@)) {
            (Ok(ext), Ok((ty, ns, entity))) => {
                &&& ext.variant == variant
                &&& ext.event_store_attributes.event_type@ == ty
                &&& opt_view(ext.event_store_attributes.event_namespace) == ns
                &&& opt_view(ext.event_store_attributes.entity_type) == entity
            },
            (Err(e), Err(msg)) => e@ == msg,
            _ => false,
        },
{
    let keys_values = match attributes_map(&variant.attrs) {
        Ok(m) => m,
        Err(e) => {
            return Err(e);
        },
    };
    let event_type = match keys_values.get("event_type") {
        Some(v) => v,
        None => {
            let mut msg = String::from_str("Failed to find event_type property on ");
            msg.append(variant.ident.as_str());
            return Err(msg);
        },
    };
    let event_namespace = keys_values.get("event_namespace");
    let entity_type = keys_values.get("entity_type");
    Ok(
        VariantExt {
            variant,
            event_store_attributes: VariantEventStoreAttributes {
                event_type,
                event_namespace,
                entity_type,
            },
        },
    )
}

} // verus!
