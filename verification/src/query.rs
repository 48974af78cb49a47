//! Lookup of a key in a URL query string such as `?RUST_LOG=debug&x=1`.

use vstd::prelude::*;
use vstd::string::*;
use vstd::utf8::*;

verus! {

/// Number of bytes of `s` before the first occurrence of `sep`
/// (all of `s` when `sep` does not occur).
pub open spec fn piece_len(s: Seq<u8>, sep: u8) -> nat
    decreases s.len(),
{
    if s.len() == 0 {
        0
    } else if s[0] == sep {
        0
    } else {
        1 + piece_len(s.drop_first(), sep)
    }
}

/// What one `key=value` pair of a query string decides.
pub enum PairLookup {
    /// The pair's key is the one searched for; this is its value.
    Found(Seq<u8>),
    /// The pair holds another key, or no `=` at all: the lookup goes on
    /// with the next pair.
    Next,
}

/// The decision for one pair: its key is the text before the first `=`,
/// its value the text between the first `=` and the next `=` (or the end).
/// A pair without `=` holds no value and is passed over.
pub open spec fn pair_lookup(pair: Seq<u8>, key: Seq<u8>) -> PairLookup {
    let k = piece_len(pair, '=' as u8);
    if k == pair.len() {
        PairLookup::Next
    } else {
        let after = pair.skip(k + 1 as int);
        let value = after.take(piece_len(after, '=' as u8) as int);
        if pair.take(k as int) == key {
            PairLookup::Found(value)
        } else {
            PairLookup::Next
        }
    }
}

/// Looks `key` up in the `&`-separated pairs of `s`, first pair first.
pub open spec fn lookup_pairs(s: Seq<u8>, key: Seq<u8>) -> Option<Seq<u8>>
    decreases s.len(),
{
    let n = piece_len(s, '&' as u8);
    match pair_lookup(s.take(n as int), key) {
        PairLookup::Found(v) => Some(v),
        PairLookup::Next => if n < s.len() {
            lookup_pairs(s.skip(n + 1 as int), key)
        } else {
            None
        },
    }
}

/// The value of `key` in the query string `q`, which must begin with `?`.
pub open spec fn query_lookup(q: Seq<u8>, key: Seq<u8>) -> Option<Seq<u8>> {
    if q.len() > 0 && q[0] == '?' as u8 {
        lookup_pairs(q.skip(1), key)
    } else {
        None
    }
}

/// `piece_len` is the index of the first `sep`, or the length when there is none.
pub proof fn lemma_piece_len(s: Seq<u8>, sep: u8)
    ensures
        piece_len(s, sep) <= s.len(),
        forall|i: int| 0 <= i < piece_len(s, sep) ==> s[i] != sep,
        piece_len(s, sep) < s.len() ==> s[piece_len(s, sep) as int] == sep,
    decreases s.len(),
{
    if s.len() > 0 && s[0] != sep {
        lemma_piece_len(s.drop_first(), sep);
        assert forall|i: int| 0 <= i < piece_len(s, sep) implies s[i] != sep by {
            if i > 0 {
                assert(s[i] == s.drop_first()[i - 1]);
            }
        }
    }
}

/// In valid UTF-8, the position right after an ASCII byte that starts a
/// character is again a character boundary.
proof fn lemma_boundary_after_ascii(b: Seq<u8>, i: int)
    requires
        valid_utf8(b),
        0 <= i < b.len(),
        b[i] < 0x80,
    ensures
        is_char_boundary(b, i + 1),
{
    is_char_boundary_start_end_of_seq(b);
    if i + 1 < b.len() {
        is_char_boundary_iff_not_is_continuation_byte(b, i);
        valid_utf8_split(b, i);
        let s2 = b.subrange(i, b.len() as int);
        assert(s2[0] == b[i]);
        assert(length_of_first_scalar(s2) == 1);
        let s3 = pop_first_scalar(s2);
        assert(s3 =~= b.subrange(i + 1, b.len() as int));
        assert(valid_utf8(s3));
        is_char_boundary_start_end_of_seq(s3);
        is_char_boundary_iff_not_is_continuation_byte(s3, 0);
        assert(s3[0] == b[i + 1]);
        is_char_boundary_iff_not_is_continuation_byte(b, i + 1);
    }
}

/// Index of the first `sep` in `b[from..to]`, or `to` when there is none.
fn find_byte(b: &[u8], from: usize, to: usize, sep: u8) -> (r: usize)
    requires
        from <= to <= b@.len(),
    ensures
        from <= r <= to,
        r - from == piece_len(b@.subrange(from as int, to as int), sep),
{
    let mut i: usize = from;
    while i < to && b[i] != sep
        invariant
            from <= i <= to <= b@.len(),
            forall|j: int| from <= j < i ==> b@[j] != sep,
        decreases to - i,
    {
        i = i + 1;
    }
    proof {
        let sub = b@.subrange(from as int, to as int);
        lemma_piece_len(sub, sep);
        let p = piece_len(sub, sep) as int;
        if p < i - from {
            assert(sub[p] == b@[from + p]);
        }
        if p > i - from {
            assert(sub[i - from] == b@[i as int]);
        }
    }
    i
}

/// Whether `b[start..end]` equals `key`.
fn range_equals(b: &[u8], start: usize, end: usize, key: &[u8]) -> (r: bool)
    requires
        start <= end <= b@.len(),
    ensures
        r == (b@.subrange(start as int, end as int) == key@),
{
    if end - start != key.len() {
        return false;
    }
    let mut i: usize = 0;
    while i < key.len()
        invariant
            start <= end <= b@.len(),
            end - start == key@.len(),
            i <= key@.len(),
            forall|j: int| 0 <= j < i ==> b@[start + j] == key@[j],
        decreases key@.len() - i,
    {
        if b[start + i] != key[i] {
            assert(b@.subrange(start as int, end as int)[i as int] != key@[i as int]);
            return false;
        }
        i = i + 1;
    }
    assert(b@.subrange(start as int, end as int) =~= key@);
    true
}

/// Parses a query string as returned by the browser's `location.search`
/// (`?key=value&key2=value2`) and gets the value of `search_key` out of it.
///
/// The query must start with `?`. Pairs are read in order and the first
/// pair with the key gives the value; a pair without `=` is passed over; the
/// value of a pair is the text between its first `=` and the next `=` or
/// `&`.
pub fn parse_url_query_string<'a>(query: &'a str, search_key: &str) -> (r: Option<&'a str>)
    ensures
        match query_lookup(query.spec_bytes(), search_key.spec_bytes()) {
            None => r is None,
            Some(v) => r matches Some(s) && s.spec_bytes() == v,
        },
{
    let b = query.as_bytes();
    let key = search_key.as_bytes();
    let len: usize = b.len();
    if len == 0 || b[0] != 0x3f {
        return None;
    }
    let ghost q = b@;
    let mut pos: usize = 1;
    proof {
        assert(q.skip(1) =~= q.subrange(1, len as int));
    }
    while pos <= len
        invariant
            q == b@,
            q == query.spec_bytes(),
            key@ == search_key.spec_bytes(),
            len == q.len(),
            1 <= pos <= len,
            q.len() > 0 && q[0] == '?' as u8,
            query_lookup(q, key@) == lookup_pairs(q.subrange(pos as int, len as int), key@),
        decreases len - pos,
    {
        let ghost s = q.subrange(pos as int, len as int);
        let pair_end: usize = find_byte(b, pos, len, 0x26);
        let ghost n = piece_len(s, '&' as u8);
        let ghost pair = s.take(n as int);
        proof {
            assert(pair =~= q.subrange(pos as int, pair_end as int));
        }
        let eq: usize = find_byte(b, pos, pair_end, 0x3d);
        if eq < pair_end {
            let value_end: usize = find_byte(b, eq + 1, pair_end, 0x3d);
            proof {
                let k = piece_len(pair, '=' as u8);
                let after = pair.skip(k + 1 as int);
                assert(after =~= q.subrange(eq + 1, pair_end as int));
                assert(pair.take(k as int) =~= q.subrange(pos as int, eq as int));
                assert(after.take(piece_len(after, '=' as u8) as int) =~= q.subrange(
                    eq + 1,
                    value_end as int,
                ));
            }
            if range_equals(b, pos, eq, key) {
                proof {
                    encode_utf8_valid_utf8(query@);
                    lemma_piece_len(q.subrange(pos as int, pair_end as int), '=' as u8);
                    assert(q[eq as int] == '=' as u8) by {
                        assert(q.subrange(pos as int, pair_end as int)[eq - pos] == q[eq as int]);
                    }
                    is_char_boundary_iff_not_is_continuation_byte(q, eq as int);
                    lemma_boundary_after_ascii(q, eq as int);
                    valid_utf8_split(q, eq + 1);
                    let rest = q.subrange(eq + 1, len as int);
                    is_char_boundary_start_end_of_seq(rest);
                    lemma_piece_len(q.subrange(eq + 1, pair_end as int), '=' as u8);
                    lemma_piece_len(s, '&' as u8);
                    if value_end < len {
                        if value_end < pair_end {
                            assert(q.subrange(eq + 1, pair_end as int)[value_end - eq - 1]
                                == q[value_end as int]);
                        } else {
                            assert(s[pair_end - pos] == q[value_end as int]);
                        }
                        assert(rest[value_end - eq - 1] == q[value_end as int]);
                        is_char_boundary_iff_not_is_continuation_byte(rest, value_end - eq - 1);
                    }
                }
                let (_, tail) = query.split_at(eq + 1);
                let (value, _) = tail.split_at(value_end - eq - 1);
                proof {
                    assert(value.spec_bytes() =~= q.subrange(eq + 1, value_end as int));
                }
                return Some(value);
            }
        }
        if pair_end == len {
            return None;
        }
        proof {
            assert(s.skip(n + 1 as int) =~= q.subrange(pair_end + 1, len as int));
        }
        pos = pair_end + 1;
    }
    None
}

/// In the `&`-separated pairs `s`, the pair starting at `i` has the key
/// `key` (the text from `i` to the `=` at `j`, holding no `&` or `=`), and
/// its value is `v`: the text after that `=`, holding no `&` or `=`, up to
/// an `&`, another `=` or the end.
pub open spec fn pair_holds(s: Seq<u8>, key: Seq<u8>, v: Seq<u8>, i: int, j: int) -> bool {
    &&& 0 <= i <= j
    &&& j + 1 + v.len() <= s.len()
    &&& (i == 0 || s[i - 1] == '&' as u8)
    &&& s.subrange(i, j) == key
    &&& s[j] == '=' as u8
    &&& forall|m: int| i <= m < j ==> s[m] != '=' as u8 && s[m] != '&' as u8
    &&& s.subrange(j + 1, j + 1 + v.len()) == v
    &&& forall|m: int| 0 <= m < v.len() ==> v[m] != '=' as u8 && v[m] != '&' as u8
    &&& (j + 1 + v.len() == s.len() || s[j + 1 + v.len()] == '&' as u8 || s[j + 1 + v.len()]
        == '=' as u8)
}

/// What `lookup_pairs` finds is the value of a pair whose whole key is the
/// key searched for.
proof fn lemma_lookup_pairs_sound(s: Seq<u8>, key: Seq<u8>)
    ensures
        lookup_pairs(s, key) is Some ==> exists|i: int, j: int| #[trigger] pair_holds(s, key, lookup_pairs(s, key)->0, i, j),
    decreases s.len(),
{
    let n = piece_len(s, '&' as u8);
    lemma_piece_len(s, '&' as u8);
    let pair = s.take(n as int);
    let k = piece_len(pair, '=' as u8);
    lemma_piece_len(pair, '=' as u8);
    if k < pair.len() {
        let after = pair.skip(k + 1 as int);
        let pl = piece_len(after, '=' as u8);
        lemma_piece_len(after, '=' as u8);
        let value = after.take(pl as int);
        if pair.take(k as int) == key {
            assert(lookup_pairs(s, key) == Some(value));
            assert(s.subrange(0, k as int) =~= pair.take(k as int));
            assert(s.subrange(k + 1 as int, (k + 1 + value.len()) as int) =~= value);
            assert forall|m: int| 0 <= m < k implies s[m] != '=' as u8 && s[m] != '&' as u8 by {
                assert(pair[m] == s[m]);
            }
            assert forall|m: int| 0 <= m < value.len() implies value[m] != '=' as u8 && value[m]
                != '&' as u8 by {
                assert(value[m] == after[m]);
                assert(after[m] == s[k + 1 + m]);
            }
            assert(pair[k as int] == s[k as int]);
            let e: int = (k + 1 + pl) as int;
            if pl < after.len() {
                assert(after[pl as int] == s[e]);
            } else if n < s.len() {
                assert(e == n);
            }
            assert(pair_holds(s, key, value, 0, k as int));
            assert(lookup_pairs(s, key)->0 == value);
            assert(pair_holds(s, key, lookup_pairs(s, key)->0, 0, k as int));
            return;
        }
    }
    if lookup_pairs(s, key) is Some {
        assert(n < s.len());
        let t = s.skip(n + 1 as int);
        lemma_lookup_pairs_sound(t, key);
        let v = lookup_pairs(s, key)->0;
        assert(lookup_pairs(t, key) == Some(v));
        let (i, j) = choose|i: int, j: int| #[trigger] pair_holds(t, key, v, i, j);
        let d = n + 1;
        assert(t.subrange(i, j) =~= s.subrange(i + d, j + d));
        assert(t.subrange(j + 1, j + 1 + v.len()) =~= s.subrange(j + d + 1, j + d + 1 + v.len()));
        assert forall|m: int| i + d <= m < j + d implies s[m] != '=' as u8 && s[m] != '&' as u8 by {
            assert(t[m - d] == s[m]);
        }
        if i > 0 {
            assert(t[i - 1] == s[i + d - 1]);
        }
        assert(t[j] == s[j + d]);
        if j + 1 + v.len() < t.len() {
            assert(t[j + 1 + v.len()] == s[j + d + 1 + v.len()]);
        }
        assert(pair_holds(s, key, v, i + d, j + d));
    }
}

/// The value found for a key is always the value of a pair whose key is
/// exactly that key (never a pair whose key merely begins or ends with it):
/// the pair starts right after the `?` or an `&`, its key runs to the first
/// `=`, and its value runs from there to the next `&`, `=` or the end.
pub proof fn lemma_query_value_has_exact_key(q: Seq<u8>, key: Seq<u8>)
    ensures
        query_lookup(q, key) matches Some(v) ==> exists|i: int, j: int|
            1 <= i && (#[trigger] pair_holds(q.skip(1), key, v, i - 1, j - 1)) && q.subrange(i, j) == key
                && (q[i - 1] == '?' as u8 || q[i - 1] == '&' as u8) && q[j] == '=' as u8
                && q.subrange(j + 1, j + 1 + v.len()) == v,
{
    if query_lookup(q, key) is Some {
        let v = query_lookup(q, key)->0;
        let s = q.skip(1);
        lemma_lookup_pairs_sound(s, key);
        let (i0, j0) = choose|i: int, j: int| #[trigger] pair_holds(s, key, v, i, j);
        assert(s.subrange(i0, j0) =~= q.subrange(i0 + 1, j0 + 1));
        assert(s.subrange(j0 + 1, j0 + 1 + v.len()) =~= q.subrange(j0 + 2, j0 + 2 + v.len()));
        assert(s[j0] == q[j0 + 1]);
        if i0 > 0 {
            assert(s[i0 - 1] == q[i0]);
        }
        assert(pair_holds(q.skip(1), key, v, (i0 + 1) - 1, (j0 + 1) - 1));
    }
}

} // verus!
