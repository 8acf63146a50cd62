//! Checking the identity written into a stored event when it is read back.
use vstd::prelude::*;
use crate::derive::dotted;
use crate::text::{
    first_piece, has_char, lemma_first_index_from_prefix, second_piece, split_first_two, str_eq,
};

verus! {

/// The namespace and type that identify a kind of event.
#[derive(Debug)]
pub struct EventIdent {
    /// Event type like `ThingUpdated`
    pub event_type: String,
    /// Event namespace like `accounts`
    pub event_namespace: String,
}

/// The message given when an event carries no identity.
pub open spec fn no_identifier_message() -> Seq<char> {
    "No event identifier found"@
}

/// The message given when an event carries the identity of another kind of event.
pub open spec fn incorrect_identifier_message() -> Seq<char> {
    "Incorrect event identifier"@
}

/// The identity, as (namespace, type), that a stored event carries: its
/// `event_namespace` and `event_type` fields where present, else the two
/// first dot-separated pieces of its legacy `type` field.
pub open spec fn resolved_ident(
    split: Option<(Seq<char>, Seq<char>)>,
    legacy: Option<Seq<char>>,
) -> Result<(Seq<char>, Seq<char>), Seq<char>> {
    match split {
        Some(pair) => Ok(pair),
        None => match legacy {
            Some(s) => Ok((first_piece(s, '.'), second_piece(s, '.'))),
            None => Err(no_identifier_message()),
        },
    }
}

/// The (namespace, type) view of an optional identity.
pub open spec fn ident_view(i: Option<EventIdent>) -> Option<(Seq<char>, Seq<char>)> {
    match i {
        Some(e) => Some((e.event_namespace@, e.event_type@)),
        None => None,
    }
}

/// The (namespace, type) view of a resolved identity.
pub open spec fn ident_result_view(r: Result<EventIdent, String>) -> Result<
    (Seq<char>, Seq<char>),
    Seq<char>,
> {
    match r {
        Ok(e) => Ok((e.event_namespace@, e.event_type@)),
        Err(m) => Err(m@),
    }
}

/// Whether resolving an identity from these fields is defined: a legacy
/// `type` field that is used must hold a dot.
pub open spec fn resolvable(split: Option<EventIdent>, legacy: Option<String>) -> bool {
    split is None && legacy is Some ==> has_char(legacy.unwrap()@, '.')
}

/// Works out the identity of a stored event from its fields.
pub fn resolve_event_ident(split: Option<EventIdent>, legacy: Option<String>) -> (r: Result<
    EventIdent,
    String,
>)
    requires
        resolvable(split, legacy),
    ensures
        ident_result_view(r) == resolved_ident(
            ident_view(split),
            opt_str_view(legacy),
        ),
{
    match split {
        Some(ident) => Ok(ident),
        None => match legacy {
            Some(ns_and_ty) => {
                let (event_namespace, event_type) = split_first_two(ns_and_ty.as_str(), '.');
                Ok(EventIdent { event_type, event_namespace })
            },
            None => Err(String::from_str("No event identifier found")),
        },
    }
}

/// The view of an optional string.
pub open spec fn opt_str_view(o: Option<String>) -> Option<Seq<char>> {
    crate::text::opt_view(o)
}

/// Accepts an identity only if it is the expected one.
pub fn check_event_ident(ident: &EventIdent, event_type: &str, event_namespace: &str) -> (r:
    Result<(), String>)
    ensures
        r is Ok <==> (ident.event_type@ == event_type@ && ident.event_namespace@
            == event_namespace@),
        r matches Err(m) ==> m@ == incorrect_identifier_message(),
{
    if str_eq(ident.event_type.as_str(), event_type) && str_eq(
        ident.event_namespace.as_str(),
        event_namespace,
    ) {
        Ok(())
    } else {
        Err(String::from_str("Incorrect event identifier"))
    }
}

/// What reading a stored event of a derived struct gives: success where its
/// identity is the struct's, else the message of the first failure.
pub open spec fn struct_ident_check(
    split: Option<(Seq<char>, Seq<char>)>,
    legacy: Option<Seq<char>>,
    event_type: Seq<char>,
    event_namespace: Seq<char>,
) -> Result<(), Seq<char>> {
    match resolved_ident(split, legacy) {
        Err(m) => Err(m),
        Ok((ns, ty)) => if ty == event_type && ns == event_namespace {
            Ok(())
        } else {
            Err(incorrect_identifier_message())
        },
    }
}

/// The view of a check's outcome.
pub open spec fn check_view(r: Result<(), String>) -> Result<(), Seq<char>> {
    match r {
        Ok(()) => Ok(()),
        Err(m) => Err(m@),
    }
}

/// The identity check made when a derived struct event is read back.
pub fn decode_struct_event_ident(
    split: Option<EventIdent>,
    legacy: Option<String>,
    event_type: &str,
    event_namespace: &str,
) -> (r: Result<(), String>)
    requires
        resolvable(split, legacy),
    ensures
        check_view(r) == struct_ident_check(
            ident_view(split),
            opt_str_view(legacy),
            event_type@,
            event_namespace@,
        ),
        resolved_ident(ident_view(split), opt_str_view(legacy)) matches Ok((ns, ty)) ==> (r is Ok
            <==> (ty == event_type@ && ns == event_namespace@)),
        resolved_ident(ident_view(split), opt_str_view(legacy)) matches Ok((ns, ty)) && (ty
            != event_type@ || ns != event_namespace@) ==> (r matches Err(m) && m@
            == "Incorrect event identifier"@),
        split is None && legacy is None ==> (r matches Err(m) && m@ == "No event identifier found"@),
{
    proof {
        reveal_strlit("Incorrect event identifier");
        reveal_strlit("No event identifier found");
    }
    match resolve_event_ident(split, legacy) {
        Ok(ident) => check_event_ident(&ident, event_type, event_namespace),
        Err(e) => Err(e),
    }
}

/// The message given when an enum event names another namespace.
pub open spec fn namespace_mismatch_message(expected: Seq<char>, got: Seq<char>) -> Seq<char> {
    "expected event_namespace "@ + expected + ", got "@ + got
}

/// The message given when an enum event names another entity type.
pub open spec fn entity_mismatch_message(expected: Seq<char>, got: Seq<char>) -> Seq<char> {
    "expected entity_type "@ + expected + ", got "@ + got
}

/// The identity check made when an event of a derived enum is read back.
pub fn check_enum_event_ident(
    event_namespace: &str,
    entity_type: &str,
    expected_namespace: &str,
    expected_entity_type: &str,
) -> (r: Result<(), String>)
    ensures
        check_view(r) == if event_namespace@ != expected_namespace@ {
            Err(namespace_mismatch_message(expected_namespace@, event_namespace@))
        } else if entity_type@ != expected_entity_type@ {
            Err(entity_mismatch_message(expected_entity_type@, entity_type@))
        } else {
            Ok(())
        },
{
    if !str_eq(event_namespace, expected_namespace) {
        let mut msg = String::from_str("expected event_namespace ");
        msg.append(expected_namespace);
        msg.append(", got ");
        msg.append(event_namespace);
        Err(msg)
    } else if !str_eq(entity_type, expected_entity_type) {
        let mut msg = String::from_str("expected entity_type ");
        msg.append(expected_entity_type);
        msg.append(", got ");
        msg.append(entity_type);
        Err(msg)
    } else {
        Ok(())
    }
}

/// A stored event read back as a derived struct is accepted exactly when the
/// identity it resolves to has the struct's type and the struct's namespace; an
/// event of any other type or namespace is refused as an incorrect identifier,
/// and one without any identity as having none.
pub proof fn lemma_struct_check_accepts_only_its_kind(
    split: Option<(Seq<char>, Seq<char>)>,
    legacy: Option<Seq<char>>,
    event_type: Seq<char>,
    event_namespace: Seq<char>,
)
    ensures
        resolved_ident(split, legacy) matches Ok((ns, ty)) ==> (struct_ident_check(
            split,
            legacy,
            event_type,
            event_namespace,
        ) is Ok <==> (ty == event_type && ns == event_namespace)),
        resolved_ident(split, legacy) matches Ok((ns, ty)) && (ty != event_type || ns
            != event_namespace) ==> struct_ident_check(split, legacy, event_type, event_namespace)
            == Err::<(), Seq<char>>("Incorrect event identifier"@),
        split is None && legacy is None ==> struct_ident_check(
            split,
            legacy,
            event_type,
            event_namespace,
        ) == Err::<(), Seq<char>>("No event identifier found"@),
        split matches Some((ns, ty)) ==> (struct_ident_check(
            split,
            legacy,
            event_type,
            event_namespace,
        ) is Ok <==> (ty == event_type && ns == event_namespace)),
{
}

/// A stored event that carries its namespace and type in their own fields is
/// accepted by the reader of its kind of event, whatever its legacy field says.
pub proof fn lemma_split_identity_accepted(
    event_namespace: Seq<char>,
    event_type: Seq<char>,
    legacy: Option<Seq<char>>,
)
    ensures
        struct_ident_check(Some((event_namespace, event_type)), legacy, event_type, event_namespace)
            == Ok::<(), Seq<char>>(()),
{
}

/// A legacy `type` field `namespace.Type` is read back as that namespace and
/// type, where neither of them holds a dot.
pub proof fn lemma_legacy_identity_round_trip(event_namespace: Seq<char>, event_type: Seq<char>)
    requires
        !has_char(event_namespace, '.'),
        !has_char(event_type, '.'),
    ensures
        resolved_ident(None, Some(dotted(event_namespace, event_type))) == Ok::<
            (Seq<char>, Seq<char>),
            Seq<char>,
        >((event_namespace, event_type)),
        struct_ident_check(None, Some(dotted(event_namespace, event_type)), event_type, event_namespace)
            == Ok::<(), Seq<char>>(()),
{
    reveal_strlit(".");
    let s = dotted(event_namespace, event_type);
    let n = event_namespace.len() as int;
    assert forall|j: int| 0 <= j < n implies s[j] != '.' by {
        assert(s[j] == event_namespace[j]);
    }
    lemma_first_index_from_prefix(s, '.', n);
    assert(s.take(n) =~= event_namespace);
    let rest = s.skip(n + 1);
    assert(rest =~= event_type);
    assert forall|j: int| 0 <= j < rest.len() implies rest[j] != '.' by {
        assert(rest[j] == event_type[j]);
    }
    lemma_first_index_from_prefix(rest, '.', rest.len() as int);
    assert(rest.take(rest.len() as int) =~= rest);
}

} // verus!

verus! {

/// An event written by a derived struct serializer (its `type`, `event_type` and
/// `event_namespace` fields as `StructInfo` gives them) is accepted by the derived
/// deserializer of the same struct; an older event that carries only the `type`
/// field is accepted too, where the namespace and the stored name hold no dot.
pub proof fn lemma_derived_struct_event_read_back(info: crate::derive::StructInfo)
    requires
        info.renamed_namespace_and_type@ == dotted(
            info.struct_namespace_quoted@,
            info.renamed_item_ident_quoted@,
        ),
    ensures
        struct_ident_check(
            Some((info.struct_namespace_quoted@, info.renamed_item_ident_quoted@)),
            Some(info.renamed_namespace_and_type@),
            info.renamed_item_ident_quoted@,
            info.struct_namespace_quoted@,
        ) == Ok::<(), Seq<char>>(()),
        !has_char(info.struct_namespace_quoted@, '.') && !has_char(
            info.renamed_item_ident_quoted@,
            '.',
        ) ==> struct_ident_check(
            None,
            Some(info.renamed_namespace_and_type@),
            info.renamed_item_ident_quoted@,
            info.struct_namespace_quoted@,
        ) == Ok::<(), Seq<char>>(()),
{
    lemma_split_identity_accepted(
        info.struct_namespace_quoted@,
        info.renamed_item_ident_quoted@,
        Some(info.renamed_namespace_and_type@),
    );
    if !has_char(info.struct_namespace_quoted@, '.') && !has_char(
        info.renamed_item_ident_quoted@,
        '.',
    ) {
        lemma_legacy_identity_round_trip(
            info.struct_namespace_quoted@,
            info.renamed_item_ident_quoted@,
        );
    }
}

} // verus!
