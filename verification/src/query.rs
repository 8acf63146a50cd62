//! Store queries and the identifiers that key their cached aggregates.
use vstd::prelude::*;
use crate::text::{
    lemma_upper_hex_concat_injective, lemma_upper_hex_concat_len, upper_hex_concat, upper_hex_string,
};
use crate::time::{chrono_utc_display, Timestamp};

verus! {

/// A query to be passed to the store
///
/// This trait must be implemented for whichever type you want to pass to a particular store.
/// An implementation that proves its identifier says so with `obeys_query_spec`,
/// and only for those does the promise of `unique_id` hold.
pub trait StoreQuery {
    /// Whether this implementation keeps the promise of `unique_id`
    open spec fn obeys_query_spec() -> bool {
        false
    }

    /// The identifier of the query (where the promise is kept)
    open spec fn id_of(&self) -> Seq<char> {
        Seq::empty()
    }

    /// You must return a unique identifier based on the query you are performing. This identifier
    /// will then be used to identify the cache and optimize the aggregations using memoization
    fn unique_id(&self) -> (r: String)
        ensures
            Self::obeys_query_spec() ==> r@ == self.id_of(),
    ;
}

/// The SHA-256 digest of `data`, as computed by the `sha2` crate.
pub uninterp spec fn sha256(data: Seq<u8>) -> Seq<u8>;

/// Hashes `data` with `sha2::Sha256::digest`; the digest is 32 bytes long
/// (the output size that `sha2` declares for SHA-256).
#[verifier::external_body]
fn sha256_digest(data: &[u8]) -> (r: Vec<u8>)
    ensures
        r@ == sha256(data@),
        r@.len() == 32,
{
    <sha2::Sha256 as sha2::Digest>::digest(data).to_vec()
}

/// `items` joined by `sep`.
pub open spec fn join(items: Seq<Seq<char>>, sep: Seq<char>) -> Seq<char>
    decreases items.len(),
{
    if items.len() == 0 {
        Seq::empty()
    } else if items.len() == 1 {
        items[0]
    } else {
        join(items.drop_last(), sep) + sep + items.last()
    }
}

/// How `{:?}` writes a list whose items write as `items`: `[a, b, c]`.
pub open spec fn debug_list(items: Seq<Seq<char>>) -> Seq<char> {
    "["@ + join(items, ", "@) + "]"@
}

/// Representation of a Postgres query and args
#[derive(Debug)]
pub struct PgQuery {
    /// Query string with placeholders
    pub query: String,
    /// Arguments to use for the query, each as `{:?}` writes it
    pub args: Vec<String>,
}

/// The views of a list of strings.
pub open spec fn views(v: Seq<String>) -> Seq<Seq<char>> {
    v.map_values(|s: String| s@)
}

/// The text hashed into a query's identifier: `{:?}` of the arguments, then
/// `:[`, the query text and `]`.
pub open spec fn query_key_text(query: Seq<char>, args: Seq<Seq<char>>) -> Seq<char> {
    debug_list(args) + ":["@ + query + "]"@
}

/// A query's identifier: the SHA-256 digest of its key text (UTF-8), each byte
/// written as two upper-case hexadecimal digits.
pub open spec fn query_id(query: Seq<char>, args: Seq<Seq<char>>) -> Seq<char> {
    upper_hex_concat(sha256(vstd::utf8::encode_utf8(query_key_text(query, args))))
}

impl PgQuery {
    /// Create a new query from a query string and arguments
    pub fn new(query: &str, args: Vec<String>) -> (r: Self)
        ensures
            r.query@ == query@,
            r.args == args,
    {
        PgQuery { query: String::from_str(query), args }
    }
}

fn debug_list_string(items: &Vec<String>) -> (r: String)
    ensures
        r@ == debug_list(views(items@)),
{
    let mut inner = String::new();
    let mut i: usize = 0;
    while i < items.len()
        invariant
            i <= items@.len(),
            inner@ == join(views(items@.take(i as int)), ", "@),
        decreases items@.len() - i,
    {
        let ghost before = inner@;
        if i > 0 {
            inner.append(", ");
        }
        inner.append(items[i].as_str());
        proof {
            let t = views(items@.take(i as int + 1));
            assert(t.drop_last() =~= views(items@.take(i as int)));
            assert(t.last() == items@[i as int]@);
        }
        i = i + 1;
    }
    assert(items@.take(items@.len() as int) =~= items@);
    let mut s = String::from_str("[");
    s.append(inner.as_str());
    s.append("]");
    s
}

impl StoreQuery for PgQuery {
    open spec fn obeys_query_spec() -> bool {
        true
    }

    open spec fn id_of(&self) -> Seq<char> {
        query_id(self.query@, views(self.args@))
    }

    /// The identifier is 64 characters long, the width of the cache's key column.
    fn unique_id(&self) -> (r: String)
        ensures
            r@.len() == 64,
            r@ == upper_hex_concat(
                sha256(
                    vstd::utf8::encode_utf8(
                        debug_list(views(self.args@)) + ":["@ + self.query@ + "]"@,
                    ),
                ),
            ),
    {
        let mut key = debug_list_string(&self.args);
        key.append(":[");
        key.append(self.query.as_str());
        key.append("]");
        let hash = sha256_digest(key.as_str().as_bytes());
        proof {
            lemma_upper_hex_concat_len(hash@);
        }
        upper_hex_string(hash.as_slice())
    }
}

/// Two queries with the same text and the same arguments share their identifier,
/// and so their cached aggregate.
pub proof fn lemma_query_id_determined(a: PgQuery, b: PgQuery)
    requires
        a.query@ == b.query@,
        views(a.args@) == views(b.args@),
    ensures
        a.id_of() == b.id_of(),
{
}

/// Two queries share an identifier only where their key texts have the same
/// SHA-256 digest: the identifier writes out the whole digest.
pub proof fn lemma_query_id_keeps_digest(a: PgQuery, b: PgQuery)
    requires
        a.id_of() == b.id_of(),
    ensures
        sha256(vstd::utf8::encode_utf8(query_key_text(a.query@, views(a.args@)))) == sha256(
            vstd::utf8::encode_utf8(query_key_text(b.query@, views(b.args@))),
        ),
{
    lemma_upper_hex_concat_injective(
        sha256(vstd::utf8::encode_utf8(query_key_text(a.query@, views(a.args@)))),
        sha256(vstd::utf8::encode_utf8(query_key_text(b.query@, views(b.args@)))),
    );
}

/// The text hashed into a query's identifier holds the whole query text,
/// verbatim, right after the arguments and `:[`, and ends with `]`; so queries
/// with the same arguments and different texts, even texts that differ only far
/// into a long query, have different key texts.
pub proof fn lemma_query_key_text_holds_query(
    query: Seq<char>,
    other: Seq<char>,
    args: Seq<Seq<char>>,
)
    ensures
        query_key_text(query, args).len() == debug_list(args).len() + 2 + query.len() + 1,
        query_key_text(query, args).subrange(0, debug_list(args).len() as int) == debug_list(args),
        query_key_text(query, args).subrange(
            (debug_list(args).len() + 2) as int,
            (debug_list(args).len() + 2 + query.len()) as int,
        ) == query,
        query != other ==> query_key_text(query, args) != query_key_text(other, args),
{
    reveal_strlit(":[");
    reveal_strlit("]");
    let d = debug_list(args);
    let t = query_key_text(query, args);
    assert(t.subrange(0, d.len() as int) =~= d);
    assert(t.subrange((d.len() + 2) as int, (d.len() + 2 + query.len()) as int) =~= query);
    let u = query_key_text(other, args);
    assert(":["@.len() == 2 && "]"@.len() == 1);
    assert(t.len() == d.len() + 3 + query.len());
    assert(u.len() == d.len() + 3 + other.len());
    if t == u {
        assert(u.subrange((d.len() + 2) as int, (d.len() + 2 + other.len()) as int) =~= other);
        assert(query.len() == other.len());
    }
}

/// Two queries get the same identifier only where the SHA-256 digests of their
/// texts `{:?}` of the arguments, `:[`, the whole query and `]` agree.
pub proof fn lemma_query_id_hashes_whole_query(a: PgQuery, b: PgQuery)
    requires
        a.id_of() == b.id_of(),
    ensures
        sha256(
            vstd::utf8::encode_utf8(debug_list(views(a.args@)) + ":["@ + a.query@ + "]"@),
        ) == sha256(
            vstd::utf8::encode_utf8(debug_list(views(b.args@)) + ":["@ + b.query@ + "]"@),
        ),
{
    lemma_upper_hex_concat_injective(
        sha256(vstd::utf8::encode_utf8(query_key_text(a.query@, views(a.args@)))),
        sha256(vstd::utf8::encode_utf8(query_key_text(b.query@, views(b.args@)))),
    );
}

/// The time-ordered query holds the whole initial query, verbatim, right after
/// `select * from (`; so different initial queries give different SQL.
pub proof fn lemma_generated_query_holds_query(
    query: Seq<char>,
    other: Seq<char>,
    since: Option<(i64, u32)>,
)
    ensures
        generated_query(query, since).subrange(0, "select * from ("@.len() as int)
            == "select * from ("@,
        generated_query(query, since).subrange(
            "select * from ("@.len() as int,
            ("select * from ("@.len() + query.len()) as int,
        ) == query,
        query != other ==> generated_query(query, since) != generated_query(other, since),
{
    let p = "select * from ("@;
    let g = generated_query(query, since);
    let h = generated_query(other, since);
    assert(g.subrange(0, p.len() as int) =~= p);
    assert(g.subrange(p.len() as int, (p.len() + query.len()) as int) =~= query);
    if g == h {
        assert(g.len() == h.len());
        assert(h.subrange(p.len() as int, (p.len() + other.len()) as int) =~= other);
        assert(query.len() == other.len());
    }
}

/// The SQL that reads the events of `query` in time order, from `since` on
/// where it is given.
pub open spec fn generated_query(query: Seq<char>, since: Option<(i64, u32)>) -> Seq<char> {
    match since {
        Some((secs, nanos)) => "select * from ("@ + query
            + ") as events where (events.context->>'time')::timestamp with time zone >= '"@
            + chrono_utc_display(secs, nanos)
            + "' order by (events.context->>'time')::timestamp with time zone asc"@,
        None => "select * from ("@ + query
            + ") as events order by (events.context->>'time')::timestamp with time zone asc"@,
    }
}

/// The parts of an optional time.
pub open spec fn opt_parts(t: Option<Timestamp>) -> Option<(i64, u32)> {
    match t {
        Some(t) => Some(t.parts()),
        None => None,
    }
}

/// Wraps `initial_query` so that it returns its events ordered by time, from
/// `since` on where it is given.
pub fn generate_query(initial_query: &PgQuery, since: &Option<Timestamp>) -> (r: String)
    ensures
        r@ == generated_query(initial_query.query@, opt_parts(*since)),
        r@ == "select * from ("@ + initial_query.query@ + match opt_parts(*since) {
            Some((secs, nanos)) => ") as events where (events.context->>'time')::timestamp with time zone >= '"@
                + chrono_utc_display(secs, nanos)
                + "' order by (events.context->>'time')::timestamp with time zone asc"@,
            None => ") as events order by (events.context->>'time')::timestamp with time zone asc"@,
        },
{
    let mut s = String::from_str("select * from (");
    s.append(initial_query.query.as_str());
    match since {
        Some(timestamp) => {
            s.append(") as events where (events.context->>'time')::timestamp with time zone >= '");
            let t = timestamp.to_display_string();
            s.append(t.as_str());
            s.append("' order by (events.context->>'time')::timestamp with time zone asc");
        },
        None => {
            s.append(") as events order by (events.context->>'time')::timestamp with time zone asc");
        },
    }
    s
}

} // verus!
