//! Reading `#[event_store(...)]` attributes.
use vstd::prelude::*;
use crate::text::{opt_view, str_eq, trim_char, trim_matches};

verus! {

/// Name of attribute used in `#[derive()]` statements
pub const PROC_MACRO_NAME: &'static str = "event_store";

/// A token of an attribute's token stream.
#[derive(Debug)]
pub enum TokenTree {
    /// A delimited group and the tokens inside it
    Group(Vec<TokenTree>),
    /// An identifier
    Ident(String),
    /// A punctuation character
    Punct(char),
    /// A literal, as written in the source (a string literal keeps its quotes)
    Literal(String),
}

/// An attribute's path, like `event_store` or `serde`.
#[derive(Debug)]
pub struct AttrPath {
    /// Whether the path starts with `::`
    pub leading_colon: bool,
    /// The identifiers of the path's segments
    pub segments: Vec<String>,
}

/// A literal in an attribute's metadata.
#[derive(Debug)]
pub enum Lit {
    /// A string literal, holding its value
    Str(String),
    /// Any other literal
    Other,
}

/// An item of a metadata list.
#[derive(Debug)]
pub enum NestedMeta {
    /// A `name = literal` pair
    NameValue { name: String, lit: Lit },
    /// Anything else
    Other,
}

/// An attribute's metadata.
#[derive(Debug)]
pub enum Meta {
    /// A bare path, like `#[event_store]`
    Path,
    /// A list, like `#[event_store(a = "b", c = "d")]`
    List(Vec<NestedMeta>),
    /// A name-value pair, like `#[event_store = "x"]`
    NameValue { name: String, lit: Lit },
}

/// An attribute on an item, a variant or a field.
#[derive(Debug)]
pub struct Attribute {
    /// The attribute's path
    pub path: AttrPath,
    /// The tokens that follow the path
    pub tokens: Vec<TokenTree>,
    /// The attribute read as metadata, or the parser's error message
    pub meta: Result<Meta, String>,
}

/// Whether some segment of `p` is `event_store`.
pub open spec fn path_mentions(p: AttrPath, name: Seq<char>) -> bool {
    exists|i: int| 0 <= i < p.segments@.len() && #[trigger] p.segments@[i]@ == name
}

/// Whether `p` is exactly the identifier `name`.
pub open spec fn path_is_ident(p: AttrPath, name: Seq<char>) -> bool {
    !p.leading_colon && p.segments@.len() == 1 && p.segments@[0]@ == name
}

/// The contents of the first group among `tts`.
pub open spec fn first_group(tts: Seq<TokenTree>) -> Option<Seq<TokenTree>>
    decreases tts.len(),
{
    if tts.len() == 0 {
        None
    } else {
        match tts[0] {
            TokenTree::Group(g) => Some(g@),
            _ => first_group(tts.drop_first()),
        }
    }
}

/// The value that a group `name = "value"` gives to `name`, quotes trimmed.
pub open spec fn group_value(g: Seq<TokenTree>, name: Seq<char>) -> Option<Seq<char>> {
    if g.len() >= 3 {
        match (g[0], g[2]) {
            (TokenTree::Ident(i), TokenTree::Literal(l)) => if i@ == name {
                Some(trim_char(l@, '"'))
            } else {
                None
            },
            _ => None,
        }
    } else {
        None
    }
}

/// The value that one attribute gives to `name`.
pub open spec fn attr_value(a: Attribute, name: Seq<char>) -> Option<Seq<char>> {
    if path_mentions(a.path, "event_store"@) {
        match first_group(a.tokens@) {
            Some(g) => group_value(g, name),
            None => None,
        }
    } else {
        None
    }
}

/// The value that the first attribute mentioning `name` gives it.
pub open spec fn attribute_ident(attrs: Seq<Attribute>, name: Seq<char>) -> Option<Seq<char>>
    decreases attrs.len(),
{
    if attrs.len() == 0 {
        None
    } else {
        match attr_value(attrs[0], name) {
            Some(v) => Some(v),
            None => attribute_ident(attrs.drop_first(), name),
        }
    }
}

fn path_mentions_event_store(p: &AttrPath) -> (r: bool)
    ensures
        r == path_mentions(*p, "event_store"@),
{
    let mut i: usize = 0;
    while i < p.segments.len()
        invariant
            i <= p.segments@.len(),
            forall|j: int| 0 <= j < i ==> p.segments@[j]@ != "event_store"@,
        decreases p.segments@.len() - i,
    {
        if str_eq(p.segments[i].as_str(), PROC_MACRO_NAME) {
            return true;
        }
        i = i + 1;
    }
    false
}

fn find_first_group(tts: &Vec<TokenTree>) -> (r: Option<&Vec<TokenTree>>)
    ensures
        match r {
            Some(g) => first_group(tts@) == Some(g@),
            None => first_group(tts@).is_none(),
        },
{
    let mut i: usize = 0;
    assert(tts@.skip(0) =~= tts@);
    while i < tts.len()
        invariant
            i <= tts@.len(),
            first_group(tts@) == first_group(tts@.skip(i as int)),
        decreases tts@.len() - i,
    {
        proof {
            assert(tts@.skip(i as int).drop_first() =~= tts@.skip(i as int + 1));
        }
        match &tts[i] {
            TokenTree::Group(g) => {
                return Some(g);
            },
            _ => {},
        }
        i = i + 1;
    }
    None
}

fn group_name_value(g: &Vec<TokenTree>, attribute_name: &str) -> (r: Option<String>)
    ensures
        opt_view(r) == group_value(g@, attribute_name@),
{
    if g.len() < 3 {
        return None;
    }
    match (&g[0], &g[2]) {
        (TokenTree::Ident(ident), TokenTree::Literal(attribute_value)) => {
            if str_eq(ident.as_str(), attribute_name) {
                Some(trim_matches(attribute_value.as_str(), '"'))
            } else {
                None
            }
        },
        _ => None,
    }
}

/// Finds the value given to `attribute_name` by the first `#[event_store(name = "value")]`
/// style attribute that sets it, with the quotes of the literal trimmed.
pub fn get_attribute_ident(input: &Vec<Attribute>, attribute_name: &str) -> (r: Option<String>)
    ensures
        opt_view(r) == attribute_ident(input@, attribute_name@),
{
    let mut i: usize = 0;
    assert(input@.skip(0) =~= input@);
    while i < input.len()
        invariant
            i <= input@.len(),
            attribute_ident(input@, attribute_name@) == attribute_ident(
                input@.skip(i as int),
                attribute_name@,
            ),
        decreases input@.len() - i,
    {
        proof {
            assert(input@.skip(i as int).drop_first() =~= input@.skip(i as int + 1));
        }
        let attr = &input[i];
        if path_mentions_event_store(&attr.path) {
            match find_first_group(&attr.tokens) {
                Some(g) => {
                    match group_name_value(g, attribute_name) {
                        Some(v) => {
                            return Some(v);
                        },
                        None => {},
                    }
                },
                None => {},
            }
        }
        i = i + 1;
    }
    None
}

} // verus!

verus! {

/// The map from a sequence of key/value pairs in which a later pair replaces
/// an earlier one with the same key.
pub open spec fn entries_map(s: Seq<(String, String)>) -> Map<Seq<char>, Seq<char>>
    decreases s.len(),
{
    if s.len() == 0 {
        Map::empty()
    } else {
        entries_map(s.drop_last()).insert(s.last().0@, s.last().1@)
    }
}

/// Key/value properties read from an `#[event_store(...)]` attribute.
#[derive(Debug)]
pub struct AttributeMap {
    entries: Vec<(String, String)>,
}

impl View for AttributeMap {
    type V = Map<Seq<char>, Seq<char>>;

    closed spec fn view(&self) -> Map<Seq<char>, Seq<char>> {
        entries_map(self.entries@)
    }
}

proof fn lemma_entries_map_prefix(s: Seq<(String, String)>, i: int, k: Seq<char>)
    requires
        0 <= i <= s.len(),
        forall|j: int| i <= j < s.len() ==> s[j].0@ != k,
    ensures
        entries_map(s).contains_key(k) == entries_map(s.take(i)).contains_key(k),
        entries_map(s).contains_key(k) ==> entries_map(s)[k] == entries_map(s.take(i))[k],
    decreases s.len(),
{
    if s.len() > i {
        lemma_entries_map_prefix(s.drop_last(), i, k);
        assert(s.drop_last().take(i) =~= s.take(i));
    } else {
        assert(s.take(i) =~= s);
    }
}

impl AttributeMap {
    /// A map without properties.
    pub fn new() -> (r: AttributeMap)
        ensures
            r@ == Map::<Seq<char>, Seq<char>>::empty(),
    {
        AttributeMap { entries: Vec::new() }
    }

    /// Sets `key` to `value`, replacing an earlier value of `key`.
    pub fn insert(&mut self, key: String, value: String)
        ensures
            final(self)@ == old(self)@.insert(key@, value@),
    {
        self.entries.push((key, value));
        assert(self.entries@.drop_last() =~= old(self).entries@);
    }

    /// The value of `key`, if it has one.
    pub fn get(&self, key: &str) -> (r: Option<String>)
        ensures
            match r {
                Some(v) => self@.contains_key(key@) && self@[key@] == v@,
                None => !self@.contains_key(key@),
            },
    {
        let mut i: usize = self.entries.len();
        while i > 0
            invariant
                i <= self.entries@.len(),
                forall|j: int| i <= j < self.entries@.len() ==> self.entries@[j].0@ != key@,
            decreases i,
        {
            if str_eq(self.entries[i - 1].0.as_str(), key) {
                proof {
                    lemma_entries_map_prefix(self.entries@, i as int, key@);
                    assert(self.entries@.take(i as int).drop_last() =~= self.entries@.take(
                        i as int - 1,
                    ));
                }
                return Some(self.entries[i - 1].1.clone());
            }
            i = i - 1;
        }
        proof {
            lemma_entries_map_prefix(self.entries@, 0, key@);
            assert(self.entries@.take(0) =~= Seq::<(String, String)>::empty());
        }
        None
    }
}

/// The message given when an item of the list is not a `name = value` pair.
pub open spec fn not_pairs_message() -> Seq<char> {
    "Attribute properties must be a list of key/value pairs"@
}

/// The message given when the value of `name` is not a string.
pub open spec fn not_string_message(name: Seq<char>) -> Seq<char> {
    "Value for property "@ + name + " must be a string"@
}

/// The message given when the metadata is not a list.
pub open spec fn not_list_message() -> Seq<char> {
    "Metadata must be a list like 'event_namespace = \"foo_bar\"'"@
}

/// The message given when no `event_store` attribute is present.
pub open spec fn missing_attribute_message() -> Seq<char> {
    "Failed to find attribute "@ + "event_store"@ + " for "@ + "event_store"@
}

/// The properties of a metadata list, read left to right; the first item that
/// is not a string-valued pair stops the reading with its message.
pub open spec fn items_map(items: Seq<NestedMeta>) -> Result<Map<Seq<char>, Seq<char>>, Seq<char>>
    decreases items.len(),
{
    if items.len() == 0 {
        Ok(Map::empty())
    } else {
        match items_map(items.drop_last()) {
            Err(e) => Err(e),
            Ok(m) => match items.last() {
                NestedMeta::NameValue { name, lit } => match lit {
                    Lit::Str(v) => Ok(m.insert(name@, v@)),
                    Lit::Other => Err(not_string_message(name@)),
                },
                NestedMeta::Other => Err(not_pairs_message()),
            },
        }
    }
}

/// Index of the first attribute whose path is exactly `event_store`.
pub open spec fn first_event_store_attr(attrs: Seq<Attribute>) -> int
    decreases attrs.len(),
{
    if attrs.len() == 0 {
        0
    } else if path_is_ident(attrs[0].path, "event_store"@) {
        0
    } else {
        1 + first_event_store_attr(attrs.drop_first())
    }
}

/// What reading the `event_store` attribute of `attrs` gives.
pub open spec fn attributes_map_spec(attrs: Seq<Attribute>) -> Result<
    Map<Seq<char>, Seq<char>>,
    Seq<char>,
> {
    let i = first_event_store_attr(attrs);
    if i >= attrs.len() {
        Err(missing_attribute_message())
    } else {
        match attrs[i].meta {
            Err(e) => Err(e@),
            Ok(Meta::List(items)) => items_map(items@),
            Ok(_) => Err(not_list_message()),
        }
    }
}

/// The view of a result of reading attribute properties.
pub open spec fn map_result_view(r: Result<AttributeMap, String>) -> Result<
    Map<Seq<char>, Seq<char>>,
    Seq<char>,
> {
    match r {
        Ok(m) => Ok(m@),
        Err(e) => Err(e@),
    }
}

proof fn lemma_first_event_store_attr(attrs: Seq<Attribute>, i: int)
    requires
        0 <= i <= attrs.len(),
        forall|j: int| 0 <= j < i ==> !path_is_ident(#[trigger] attrs[j].path, "event_store"@),
        i < attrs.len() ==> path_is_ident(attrs[i].path, "event_store"@),
    ensures
        first_event_store_attr(attrs) == i,
    decreases attrs.len(),
{
    if attrs.len() > 0 && i > 0 {
        assert forall|j: int| 0 <= j < i - 1 implies !path_is_ident(
            #[trigger] attrs.drop_first()[j].path,
            "event_store"@,
        ) by {
            assert(attrs.drop_first()[j] == attrs[j + 1]);
        }
        lemma_first_event_store_attr(attrs.drop_first(), i - 1);
    }
}

proof fn lemma_first_event_store_attr_bounds(attrs: Seq<Attribute>)
    ensures
        0 <= first_event_store_attr(attrs) <= attrs.len(),
        forall|j: int|
            0 <= j < first_event_store_attr(attrs) ==> !path_is_ident(
                #[trigger] attrs[j].path,
                "event_store"@,
            ),
        first_event_store_attr(attrs) < attrs.len() ==> path_is_ident(
            attrs[first_event_store_attr(attrs)].path,
            "event_store"@,
        ),
    decreases attrs.len(),
{
    if attrs.len() > 0 && !path_is_ident(attrs[0].path, "event_store"@) {
        let rest = attrs.drop_first();
        lemma_first_event_store_attr_bounds(rest);
        assert forall|j: int| 0 <= j < first_event_store_attr(attrs) implies !path_is_ident(
            #[trigger] attrs[j].path,
            "event_store"@,
        ) by {
            if j > 0 {
                assert(attrs[j] == rest[j - 1]);
            }
        }
        if first_event_store_attr(attrs) < attrs.len() {
            assert(attrs[first_event_store_attr(attrs)] == rest[first_event_store_attr(rest)]);
        }
    }
}

/// What the properties of one `event_store` attribute read as: its list of
/// `name = "value"` pairs, or the error its metadata gives.
pub open spec fn attr_properties(a: Attribute) -> Result<Map<Seq<char>, Seq<char>>, Seq<char>> {
    match a.meta {
        Err(e) => Err(e@),
        Ok(Meta::List(items)) => items_map(items@),
        Ok(_) => Err(not_list_message()),
    }
}

/// Reading the attributes of an item gives the properties of the first attribute
/// whose path is exactly `event_store`, at whatever position it stands; only
/// where no attribute has that path does it fail with `Failed to find attribute`.
pub proof fn lemma_attributes_map_reads_first_event_store(attrs: Seq<Attribute>)
    ensures
        forall|k: int|
            0 <= k < attrs.len() && path_is_ident(#[trigger] attrs[k].path, "event_store"@) && (
            forall|j: int| 0 <= j < k ==> !path_is_ident(#[trigger] attrs[j].path, "event_store"@))
                ==> attributes_map_spec(attrs) == attr_properties(attrs[k]),
        (forall|j: int| 0 <= j < attrs.len() ==> !path_is_ident(#[trigger] attrs[j].path, "event_store"@))
            ==> attributes_map_spec(attrs) == Err::<Map<Seq<char>, Seq<char>>, Seq<char>>(
            missing_attribute_message(),
        ),
        (exists|j: int| 0 <= j < attrs.len() && path_is_ident(#[trigger] attrs[j].path, "event_store"@))
            ==> attributes_map_spec(attrs) == attr_properties(attrs[first_event_store_attr(attrs)]),
{
    lemma_first_event_store_attr_bounds(attrs);
    assert forall|k: int|
        0 <= k < attrs.len() && path_is_ident(#[trigger] attrs[k].path, "event_store"@) && (forall|
            j: int,
        | 0 <= j < k ==> !path_is_ident(#[trigger] attrs[j].path, "event_store"@)) implies attributes_map_spec(attrs)
        == attr_properties(attrs[k]) by {
        lemma_first_event_store_attr(attrs, k);
    }
    if forall|j: int| 0 <= j < attrs.len() ==> !path_is_ident(#[trigger] attrs[j].path, "event_store"@) {
        lemma_first_event_store_attr(attrs, attrs.len() as int);
    }
    if exists|j: int| 0 <= j < attrs.len() && path_is_ident(#[trigger] attrs[j].path, "event_store"@) {
        let j = choose|j: int| 0 <= j < attrs.len() && path_is_ident(#[trigger] attrs[j].path, "event_store"@);
        assert(first_event_store_attr(attrs) <= j);
    }
}

/// Attributes with other paths (doc comments, `serde`, ...) put before an item's
/// attributes do not change what reading them gives.
pub proof fn lemma_attributes_map_skips_other_paths(before: Seq<Attribute>, attrs: Seq<Attribute>)
    requires
        forall|j: int| 0 <= j < before.len() ==> !path_is_ident(#[trigger] before[j].path, "event_store"@),
    ensures
        attributes_map_spec(before + attrs) == attributes_map_spec(attrs),
{
    let all = before + attrs;
    let b = before.len() as int;
    let i = first_event_store_attr(attrs);
    lemma_first_event_store_attr_bounds(attrs);
    assert forall|j: int| 0 <= j < b + i implies !path_is_ident(#[trigger] all[j].path, "event_store"@) by {
        if j < b {
            assert(all[j] == before[j]);
        } else {
            assert(all[j] == attrs[j - b]);
        }
    }
    if i < attrs.len() {
        assert(all[b + i] == attrs[i]);
    }
    lemma_first_event_store_attr(all, b + i);
}

fn path_is_event_store(p: &AttrPath) -> (r: bool)
    ensures
        r == path_is_ident(*p, "event_store"@),
{
    !p.leading_colon && p.segments.len() == 1 && str_eq(p.segments[0].as_str(), PROC_MACRO_NAME)
}

fn list_items_map(items: &Vec<NestedMeta>) -> (r: Result<AttributeMap, String>)
    ensures
        map_result_view(r) == items_map(items@),
{
    let mut map = AttributeMap::new();
    let mut i: usize = 0;
    while i < items.len()
        invariant
            i <= items@.len(),
            items_map(items@.take(i as int)) == Ok::<Map<Seq<char>, Seq<char>>, Seq<char>>(map@),
        decreases items@.len() - i,
    {
        proof {
            assert(items@.take(i as int + 1).drop_last() =~= items@.take(i as int));
        }
        match &items[i] {
            NestedMeta::NameValue { name, lit } => match lit {
                Lit::Str(v) => {
                    map.insert(name.clone(), v.clone());
                },
                Lit::Other => {
                    let mut msg = String::from_str("Value for property ");
                    msg.append(name.as_str());
                    msg.append(" must be a string");
                    proof {
                        lemma_items_map_err_stays(items@, i as int + 1);
                    }
                    return Err(msg);
                },
            },
            NestedMeta::Other => {
                proof {
                    lemma_items_map_err_stays(items@, i as int + 1);
                }
                return Err(String::from_str("Attribute properties must be a list of key/value pairs"));
            },
        }
        i = i + 1;
    }
    assert(items@.take(items@.len() as int) =~= items@);
    Ok(map)
}

proof fn lemma_items_map_err_stays(items: Seq<NestedMeta>, i: int)
    requires
        0 <= i <= items.len(),
        items_map(items.take(i)) is Err,
    ensures
        items_map(items) == items_map(items.take(i)),
    decreases items.len() - i,
{
    if i < items.len() {
        assert(items.take(i + 1).drop_last() =~= items.take(i));
        lemma_items_map_err_stays(items, i + 1);
    } else {
        assert(items.take(i) =~= items);
    }
}

/// Reads the `name = "value"` properties of the first attribute whose path is
/// `event_store`; a later property replaces an earlier one of the same name.
pub fn attributes_map(attrs: &Vec<Attribute>) -> (r: Result<AttributeMap, String>)
    ensures
        map_result_view(r) == attributes_map_spec(attrs@),
        forall|k: int|
            0 <= k < attrs@.len() && path_is_ident(#[trigger] attrs@[k].path, "event_store"@) && (
            forall|j: int| 0 <= j < k ==> !path_is_ident(#[trigger] attrs@[j].path, "event_store"@))
                ==> map_result_view(r) == attr_properties(attrs@[k]),
        (forall|j: int| 0 <= j < attrs@.len() ==> !path_is_ident(#[trigger] attrs@[j].path, "event_store"@))
            ==> (r matches Err(e) && e@ == missing_attribute_message()),
{
    proof {
        lemma_attributes_map_reads_first_event_store(attrs@);
    }
    let mut i: usize = 0;
    while i < attrs.len()
        invariant
            i <= attrs@.len(),
            forall|j: int| 0 <= j < i ==> !path_is_ident(#[trigger] attrs@[j].path, "event_store"@),
        decreases attrs@.len() - i,
    {
        if path_is_event_store(&attrs[i].path) {
            proof {
                lemma_first_event_store_attr(attrs@, i as int);
            }
            return match &attrs[i].meta {
                Err(e) => Err(e.clone()),
                Ok(Meta::List(items)) => list_items_map(items),
                Ok(_) => Err(
                    String::from_str("Metadata must be a list like 'event_namespace = \"foo_bar\"'"),
                ),
            };
        }
        i = i + 1;
    }
    proof {
        lemma_first_event_store_attr(attrs@, attrs@.len() as int);
    }
    let mut msg = String::from_str("Failed to find attribute ");
    msg.append(PROC_MACRO_NAME);
    msg.append(" for ");
    msg.append(PROC_MACRO_NAME);
    Err(msg)
}

} // verus!
