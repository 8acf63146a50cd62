use vstd::prelude::*;

verus! {

/// The upper-case hexadecimal digit for `d` (`0 <= d < 16`).
pub open spec fn hex_digit(d: int) -> char {
    if d < 10 {
        ('0' as int + d) as char
    } else {
        ('A' as int + (d - 10)) as char
    }
}

/// A byte written with `{:02X}`: two upper-case hexadecimal digits.
pub open spec fn upper_hex(b: u8) -> Seq<char> {
    seq![hex_digit(b as int / 16), hex_digit(b as int % 16)]
}

/// Each byte written with `{:02X}`, one after the other.
pub open spec fn upper_hex_concat(bytes: Seq<u8>) -> Seq<char>
    decreases bytes.len(),
{
    if bytes.len() == 0 {
        Seq::empty()
    } else {
        upper_hex_concat(bytes.drop_last()) + upper_hex(bytes.last())
    }
}

/// The view of an optional string.
pub open spec fn opt_view(o: Option<String>) -> Option<Seq<char>> {
    match o {
        Some(s) => Some(s@),
        None => None,
    }
}

/// Each byte takes two hexadecimal digits, byte `i` at positions `2 * i` and
/// `2 * i + 1`.
pub proof fn lemma_upper_hex_concat_len(bytes: Seq<u8>)
    ensures
        upper_hex_concat(bytes).len() == 2 * bytes.len(),
        forall|i: int|
            0 <= i < bytes.len() ==> #[trigger] upper_hex_concat(bytes).subrange(2 * i, 2 * i + 2)
                == upper_hex(bytes[i]),
    decreases bytes.len(),
{
    if bytes.len() > 0 {
        let init = bytes.drop_last();
        lemma_upper_hex_concat_len(init);
        let whole = upper_hex_concat(bytes);
        assert forall|i: int| 0 <= i < bytes.len() implies #[trigger] whole.subrange(2 * i, 2 * i + 2)
            == upper_hex(bytes[i]) by {
            if i < init.len() {
                assert(whole.subrange(2 * i, 2 * i + 2) =~= upper_hex_concat(init).subrange(
                    2 * i,
                    2 * i + 2,
                ));
                assert(init[i] == bytes[i]);
            } else {
                assert(whole.subrange(2 * i, 2 * i + 2) =~= upper_hex(bytes.last()));
            }
        }
    }
}

/// Distinct digits stand for distinct values below sixteen.
pub proof fn lemma_hex_digit_injective(a: int, b: int)
    requires
        0 <= a < 16,
        0 <= b < 16,
        hex_digit(a) == hex_digit(b),
    ensures
        a == b,
{
}

/// Different bytes are written differently.
pub proof fn lemma_upper_hex_injective(a: u8, b: u8)
    requires
        upper_hex(a) == upper_hex(b),
    ensures
        a == b,
{
    assert(upper_hex(a)[0] == upper_hex(b)[0]);
    assert(upper_hex(a)[1] == upper_hex(b)[1]);
    lemma_hex_digit_injective(a as int / 16, b as int / 16);
    lemma_hex_digit_injective(a as int % 16, b as int % 16);
}

/// Two byte strings with the same hexadecimal text are the same.
pub proof fn lemma_upper_hex_concat_injective(a: Seq<u8>, b: Seq<u8>)
    requires
        upper_hex_concat(a) == upper_hex_concat(b),
    ensures
        a == b,
{
    lemma_upper_hex_concat_len(a);
    lemma_upper_hex_concat_len(b);
    assert forall|i: int| 0 <= i < a.len() implies a[i] == b[i] by {
        assert(upper_hex_concat(a).subrange(2 * i, 2 * i + 2) == upper_hex(a[i]));
        assert(upper_hex_concat(b).subrange(2 * i, 2 * i + 2) == upper_hex(b[i]));
        lemma_upper_hex_injective(a[i], b[i]);
    }
    assert(a =~= b);
}

/// A natural number written in decimal without leading zeros.
pub open spec fn decimal(n: nat) -> Seq<char>
    decreases n,
{
    if n < 10 {
        seq![hex_digit(n as int)]
    } else {
        decimal(n / 10).push(hex_digit((n % 10) as int))
    }
}

/// `s` with every leading `c` removed.
pub open spec fn strip_leading(s: Seq<char>, c: char) -> Seq<char>
    decreases s.len(),
{
    if s.len() > 0 && s[0] == c {
        strip_leading(s.drop_first(), c)
    } else {
        s
    }
}

/// `s` with every trailing `c` removed.
pub open spec fn strip_trailing(s: Seq<char>, c: char) -> Seq<char>
    decreases s.len(),
{
    if s.len() > 0 && s.last() == c {
        strip_trailing(s.drop_last(), c)
    } else {
        s
    }
}

/// What `str::trim_matches(c)` leaves of `s`.
pub open spec fn trim_char(s: Seq<char>, c: char) -> Seq<char> {
    strip_trailing(strip_leading(s, c), c)
}

/// Whether `c` occurs in `s`.
pub open spec fn has_char(s: Seq<char>, c: char) -> bool {
    exists|i: int| 0 <= i < s.len() && s[i] == c
}

/// Index of the first `c` in `s`, or the length of `s` where there is none.
pub open spec fn first_index(s: Seq<char>, c: char) -> int
    decreases s.len(),
{
    if s.len() == 0 {
        0
    } else if s[0] == c {
        0
    } else {
        1 + first_index(s.drop_first(), c)
    }
}

/// The first piece of `s.split(c)`.
pub open spec fn first_piece(s: Seq<char>, c: char) -> Seq<char> {
    s.take(first_index(s, c))
}

/// The second piece of `s.split(c)` (meaningful where `c` occurs in `s`).
pub open spec fn second_piece(s: Seq<char>, c: char) -> Seq<char> {
    let rest = s.skip(first_index(s, c) + 1);
    rest.take(first_index(rest, c))
}

pub proof fn lemma_first_index_bounds(s: Seq<char>, c: char)
    ensures
        0 <= first_index(s, c) <= s.len(),
        first_index(s, c) < s.len() ==> s[first_index(s, c)] == c,
        forall|j: int| 0 <= j < first_index(s, c) ==> s[j] != c,
        has_char(s, c) <==> first_index(s, c) < s.len(),
    decreases s.len(),
{
    if s.len() > 0 && s[0] != c {
        lemma_first_index_bounds(s.drop_first(), c);
        assert forall|j: int| 0 <= j < first_index(s, c) implies s[j] != c by {
            if j > 0 {
                assert(s[j] == s.drop_first()[j - 1]);
            }
        }
        if has_char(s, c) {
            let i = choose|i: int| 0 <= i < s.len() && s[i] == c;
            assert(s.drop_first()[i - 1] == c);
        }
        if first_index(s, c) < s.len() {
            assert(s[first_index(s, c)] == s.drop_first()[first_index(s.drop_first(), c)]);
        }
    }
}

/// Character-by-character equality of two string slices.
pub fn str_eq(a: &str, b: &str) -> (r: bool)
    ensures
        r == (a@ == b@),
{
    let n = a.unicode_len();
    let m = b.unicode_len();
    if n != m {
        return false;
    }
    let mut i: usize = 0;
    while i < n
        invariant
            n == a@.len(),
            m == b@.len(),
            n == m,
            i <= n,
            forall|j: int| 0 <= j < i ==> a@[j] == b@[j],
        decreases n - i,
    {
        if a.get_char(i) != b.get_char(i) {
            return false;
        }
        i = i + 1;
    }
    assert(a@ =~= b@);
    true
}

/// Position of the first `c` in `s` (the length of `s` where there is none).
pub fn find_char(s: &str, c: char) -> (r: usize)
    ensures
        r == first_index(s@, c),
{
    proof {
        lemma_first_index_bounds(s@, c);
    }
    let n = s.unicode_len();
    let mut i: usize = 0;
    while i < n
        invariant
            n == s@.len(),
            i <= n,
            forall|j: int| 0 <= j < i ==> s@[j] != c,
        decreases n - i,
    {
        if s.get_char(i) == c {
            proof {
                lemma_first_index_from_prefix(s@, c, i as int);
            }
            return i;
        }
        i = i + 1;
    }
    proof {
        lemma_first_index_from_prefix(s@, c, n as int);
    }
    n
}

pub proof fn lemma_first_index_from_prefix(s: Seq<char>, c: char, i: int)
    requires
        0 <= i <= s.len(),
        forall|j: int| 0 <= j < i ==> s[j] != c,
        i < s.len() ==> s[i] == c,
    ensures
        first_index(s, c) == i,
    decreases s.len(),
{
    if s.len() > 0 && i > 0 {
        assert forall|j: int| 0 <= j < i - 1 implies s.drop_first()[j] != c by {
            assert(s.drop_first()[j] == s[j + 1]);
        }
        lemma_first_index_from_prefix(s.drop_first(), c, i - 1);
    }
}

/// A new string holding the characters of `s` from `from` up to `to`.
pub fn substring(s: &str, from: usize, to: usize) -> (r: String)
    requires
        from <= to <= s@.len(),
    ensures
        r@ == s@.subrange(from as int, to as int),
{
    String::from_str(s.substring_char(from, to))
}

/// The upper-case hexadecimal digit for `d`.
pub fn hex_digit_str(d: u8) -> (r: &'static str)
    requires
        d < 16,
    ensures
        r@ == seq![hex_digit(d as int)],
{
    let table = "0123456789ABCDEF";
    proof {
        reveal_strlit("0123456789ABCDEF");
    }
    let r = table.substring_ascii(d as usize, d as usize + 1);
    assert(r@ =~= seq![hex_digit(d as int)]);
    r
}

/// Appends the `{:02X}` form of `b` to `out`.
pub fn push_upper_hex(out: &mut String, b: u8)
    ensures
        final(out)@ == old(out)@ + upper_hex(b),
{
    out.append(hex_digit_str(b / 16));
    out.append(hex_digit_str(b % 16));
}

/// All bytes written with `{:02X}` and concatenated.
pub fn upper_hex_string(bytes: &[u8]) -> (r: String)
    ensures
        r@ == upper_hex_concat(bytes@),
{
    let mut out = String::new();
    let mut i: usize = 0;
    while i < bytes.len()
        invariant
            i <= bytes@.len(),
            out@ == upper_hex_concat(bytes@.take(i as int)),
        decreases bytes@.len() - i,
    {
        let ghost before = out@;
        push_upper_hex(&mut out, bytes[i]);
        proof {
            assert(bytes@.take(i as int + 1).drop_last() =~= bytes@.take(i as int));
        }
        i = i + 1;
    }
    assert(bytes@.take(bytes@.len() as int) =~= bytes@);
    out
}

/// `n` written in decimal.
pub fn decimal_string(n: u64) -> (r: String)
    ensures
        r@ == decimal(n as nat),
    decreases n,
{
    if n < 10 {
        String::from_str(hex_digit_str(n as u8))
    } else {
        let mut s = decimal_string(n / 10);
        s.append(hex_digit_str((n % 10) as u8));
        s
    }
}

/// What `s.trim_matches(c)` returns.
pub fn trim_matches(s: &str, c: char) -> (r: String)
    ensures
        r@ == trim_char(s@, c),
{
    let n = s.unicode_len();
    let mut start: usize = 0;
    assert(s@.skip(0) =~= s@);
    while start < n && s.get_char(start) == c
        invariant
            n == s@.len(),
            start <= n,
            strip_leading(s@, c) == strip_leading(s@.skip(start as int), c),
        decreases n - start,
    {
        proof {
            assert(s@.skip(start as int).drop_first() =~= s@.skip(start as int + 1));
        }
        start = start + 1;
    }
    proof {
        assert(strip_leading(s@.skip(start as int), c) == s@.skip(start as int));
        assert(s@.subrange(start as int, n as int) =~= s@.skip(start as int));
    }
    let mut end: usize = n;
    while end > start && s.get_char(end - 1) == c
        invariant
            n == s@.len(),
            start <= end <= n,
            trim_char(s@, c) == strip_trailing(s@.subrange(start as int, end as int), c),
        decreases end,
    {
        proof {
            assert(s@.subrange(start as int, end as int).drop_last() =~= s@.subrange(
                start as int,
                end as int - 1,
            ));
        }
        end = end - 1;
    }
    proof {
        let t = s@.subrange(start as int, end as int);
        assert(strip_trailing(t, c) == t);
    }
    substring(s, start, end)
}

} // verus!

verus! {

/// The two pieces that `s.split(c)` starts with: the text before the first `c`
/// and the text between the first and the second `c` (or the end).
pub fn split_first_two(s: &str, c: char) -> (r: (String, String))
    requires
        has_char(s@, c),
    ensures
        r.0@ == first_piece(s@, c),
        r.1@ == second_piece(s@, c),
{
    proof {
        lemma_first_index_bounds(s@, c);
    }
    let n = s.unicode_len();
    let i = find_char(s, c);
    let first = substring(s, 0, i);
    let rest = s.substring_char(i + 1, n);
    assert(rest@ =~= s@.skip(i + 1));
    proof {
        lemma_first_index_bounds(rest@, c);
    }
    let j = find_char(rest, c);
    let second = substring(rest, 0, j);
    assert(first@ =~= first_piece(s@, c));
    assert(second@ =~= second_piece(s@, c));
    (first, second)
}

} // verus!
