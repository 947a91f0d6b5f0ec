//! Reading the wire format: length fields, `key=value` lists and lines.

use vstd::prelude::*;

use crate::message::header::Field;
use crate::text::{
    first_index_of, lemma_first_index_of, parse_digits_bounded, parse_i32, parse_signed,
    parse_unsigned, slice_to_vec_chars, trim_leading_zeros, all_digits, digits_value,
    chars_eq_str,
};

verus! {

// ── Length fields ────────────────────────────────────────────────────────────

/// Bytes read as characters (each byte one character).
pub open spec fn byte_chars(b: Seq<u8>) -> Seq<char> {
    b.map_values(|x: u8| x as char)
}

/// Value of a 9-byte length field: `x` + hex digits, or decimal digits
/// (all zeros reads as 0).
pub open spec fn len_field_value(f: Seq<u8>) -> Option<nat> {
    let s = byte_chars(f);
    if s.len() > 0 && s[0] == 'x' {
        parse_unsigned(s.drop_first(), 16)
    } else {
        let t = trim_leading_zeros(s);
        if t.len() == 0 {
            if s.len() == 9 {
                Some(0)
            } else {
                None
            }
        } else {
            parse_unsigned(t, 10)
        }
    }
}

/// Value of a 9-byte decimal integer field (message type, data type).
pub open spec fn dec_field_value(f: Seq<u8>) -> Option<i32> {
    let s = byte_chars(f);
    let t = trim_leading_zeros(s);
    if t.len() == 0 {
        if s.len() == 9 {
            Some(0)
        } else {
            None
        }
    } else {
        parse_i32(t)
    }
}

fn bytes_to_chars(b: &[u8]) -> (r: Vec<char>)
    ensures
        r@ == byte_chars(b@),
{
    let mut out: Vec<char> = Vec::new();
    let n = b.len();
    for i in 0..n
        invariant
            n == b@.len(),
            out@ == byte_chars(b@.take(i as int)),
    {
        out.push(b[i] as char);
        assert(byte_chars(b@.take(i + 1)) =~= byte_chars(b@.take(i as int)).push(b@[i as int] as char));
    }
    assert(b@.take(n as int) =~= b@);
    out
}

/// Number of leading `'0'` characters.
pub open spec fn leading_zeros(s: Seq<char>) -> nat
    decreases s.len(),
{
    if s.len() > 0 && s[0] == '0' {
        1 + leading_zeros(s.drop_first())
    } else {
        0
    }
}

proof fn lemma_trim_leading_zeros(s: Seq<char>)
    ensures
        leading_zeros(s) <= s.len(),
        trim_leading_zeros(s) == s.skip(leading_zeros(s) as int),
        forall|j: int| 0 <= j < leading_zeros(s) ==> s[j] == '0',
        leading_zeros(s) < s.len() ==> s[leading_zeros(s) as int] != '0',
    decreases s.len(),
{
    if s.len() > 0 && s[0] == '0' {
        let t = s.drop_first();
        lemma_trim_leading_zeros(t);
        let k = leading_zeros(t);
        assert(t.skip(k as int) =~= s.skip((k + 1) as int));
        assert forall|j: int| 0 <= j < k + 1 implies s[j] == '0' by {
            if j > 0 {
                assert(s[j] == t[j - 1]);
            }
        }
        if k + 1 < s.len() {
            assert(s[(k + 1) as int] == t[k as int]);
        }
    } else {
        assert(s.skip(0) =~= s);
    }
}

/// Index of the first non-`'0'` character of `v`.
fn skip_zeros(v: &Vec<char>) -> (k: usize)
    ensures
        k <= v@.len(),
        trim_leading_zeros(v@) == v@.skip(k as int),
{
    proof {
        lemma_trim_leading_zeros(v@);
    }
    let mut k: usize = 0;
    while k < v.len() && v[k] == '0'
        invariant
            k <= v@.len(),
            forall|j: int| 0 <= j < k ==> v@[j] == '0',
        decreases v@.len() - k,
    {
        k = k + 1;
    }
    proof {
        let k2 = leading_zeros(v@);
        if k2 < k {
            assert(v@[k2 as int] == '0');
        }
        if k < k2 {
            assert(v@[k as int] == '0');
        }
    }
    k
}

/// Parses `v[start..]` as unsigned digits in `base` (optional leading `+`).
fn parse_unsigned_at(v: &Vec<char>, start: usize, base: u64) -> (r: Option<u64>)
    requires
        start <= v@.len(),
        base == 10 || base == 16,
        v@.len() <= 9,
        base == 16 ==> start >= 1,
    ensures
        match r {
            Some(x) => parse_unsigned(v@.skip(start as int), base as nat) == Some(x as nat) && x
                <= 0xffff_ffff,
            None => parse_unsigned(v@.skip(start as int), base as nat) is None,
        },
{
    let ghost s = v@.skip(start as int);
    let mut b = start;
    if start < v.len() && v[start] == '+' {
        b = start + 1;
        assert(s.drop_first() =~= v@.subrange(b as int, v@.len() as int));
    } else {
        assert(s =~= v@.subrange(b as int, v@.len() as int));
    }
    proof {
        let body = v@.subrange(b as int, v@.len() as int);
        if body.len() > 0 && all_digits(body, base as nat) {
            lemma_digits_value_bound(body, base as nat);
        }
    }
    parse_digits_bounded(v.as_slice(), b, v.len(), base, 0xffff_ffff)
}

/// A digit string of at most 8 hex or 9 decimal digits stays within `u32`.
proof fn lemma_digits_value_bound(s: Seq<char>, base: nat)
    requires
        base == 10 || base == 16,
        all_digits(s, base),
        base == 16 ==> s.len() <= 8,
        base == 10 ==> s.len() <= 9,
    ensures
        digits_value(s, base) <= 0xffff_ffff,
{
    lemma_digits_value_below_pow(s, base);
    if base == 16 {
        lemma_pow_mono(base, s.len(), 8);
        assert(pow_nat(16, 8) == 0x1_0000_0000) by {
            reveal_with_fuel(pow_nat, 9);
        }
    } else {
        lemma_pow_mono(base, s.len(), 9);
        assert(pow_nat(10, 9) == 1_000_000_000) by {
            reveal_with_fuel(pow_nat, 10);
        }
    }
}

pub open spec fn pow_nat(b: nat, e: nat) -> nat
    decreases e,
{
    if e == 0 {
        1
    } else {
        b * pow_nat(b, (e - 1) as nat)
    }
}

proof fn lemma_pow_mono(b: nat, e1: nat, e2: nat)
    requires
        b >= 1,
        e1 <= e2,
    ensures
        pow_nat(b, e1) <= pow_nat(b, e2),
    decreases e2,
{
    if e1 < e2 {
        lemma_pow_mono(b, e1, (e2 - 1) as nat);
        let p = pow_nat(b, (e2 - 1) as nat);
        assert(b * p >= p) by (nonlinear_arith)
            requires
                b >= 1,
        ;
    }
}

proof fn lemma_digits_value_below_pow(s: Seq<char>, base: nat)
    requires
        base == 10 || base == 16,
        all_digits(s, base),
    ensures
        digits_value(s, base) < pow_nat(base, s.len()),
    decreases s.len(),
{
    if s.len() > 0 {
        let t = s.drop_last();
        assert(all_digits(t, base)) by {
            assert forall|i: int| 0 <= i < t.len() implies (#[trigger] crate::text::digit_value(
                t[i],
                base,
            )) is Some by {
                assert(t[i] == s[i]);
            }
        }
        lemma_digits_value_below_pow(t, base);
        let d = match crate::text::digit_value(s.last(), base) {
            Some(d) => d,
            None => 0,
        };
        assert(crate::text::digit_value(s[s.len() - 1], base) is Some);
        assert(d < base);
        let v = digits_value(t, base);
        let p = pow_nat(base, t.len());
        assert(v * base + d < p * base) by (nonlinear_arith)
            requires
                v < p,
                d < base,
        ;
    }
}

/// Parse a 9-byte length field.  Accepts `x` + 8 hex digits OR 9 decimal digits.
pub fn parse_length_value(field: &[u8]) -> (r: Option<usize>)
    requires
        field@.len() == 9,
    ensures
        match r {
            Some(x) => len_field_value(field@) == Some(x as nat) && x <= 0xffff_ffff,
            None => len_field_value(field@) is None,
        },
{
    let s = bytes_to_chars(field);
    if s[0] == 'x' {
        assert(s@.drop_first() =~= s@.skip(1));
        match parse_unsigned_at(&s, 1, 16) {
            Some(x) => Some(x as usize),
            None => None,
        }
    } else {
        let k = skip_zeros(&s);
        if k == s.len() {
            Some(0)
        } else {
            match parse_unsigned_at(&s, k, 10) {
                Some(x) => Some(x as usize),
                None => None,
            }
        }
    }
}

/// Parses `v` as a signed 32-bit decimal integer (`str::parse::<i32>`).
pub fn parse_i32_chars(v: &[char]) -> (r: Option<i32>)
    ensures
        r == parse_i32(v@),
{
    let n = v.len();
    if n == 0 {
        return None;
    }
    if v[0] == '-' {
        assert(v@.drop_first() =~= v@.subrange(1, n as int));
        match parse_digits_bounded(v, 1, n, 10, 2147483648) {
            Some(x) => {
                return Some((-(x as i64)) as i32);
            },
            None => {
                return None;
            },
        }
    }
    let b: usize = if v[0] == '+' {
        1
    } else {
        0
    };
    if v[0] == '+' {
        assert(v@.drop_first() =~= v@.subrange(1, n as int));
    } else {
        assert(v@ =~= v@.subrange(0, n as int));
    }
    match parse_digits_bounded(v, b, n, 10, 2147483647) {
        Some(x) => Some(x as i32),
        None => None,
    }
}

/// Parse a 9-byte decimal integer field.
pub fn parse_dec_value(field: &[u8]) -> (r: Option<i32>)
    requires
        field@.len() == 9,
    ensures
        r == dec_field_value(field@),
{
    let s = bytes_to_chars(field);
    let k = skip_zeros(&s);
    if k == s.len() {
        Some(0)
    } else {
        let t = slice_to_vec_chars(s.as_slice(), k, s.len());
        assert(t@ =~= s@.skip(k as int));
        parse_i32_chars(t.as_slice())
    }
}

// ── Splitting ────────────────────────────────────────────────────────────────

/// `str::split(c)`: the pieces between separators, empty ones included.
pub open spec fn split_on(s: Seq<char>, c: char) -> Seq<Seq<char>>
    decreases s.len(),
{
    match first_index_of(s, c) {
        Some(i) => if 0 <= i < s.len() {
            seq![s.take(i)] + split_on(s.skip(i + 1), c)
        } else {
            seq![s]
        },
        None => seq![s],
    }
}

/// A `key=value` part split at its first `=`; parts without `=` give nothing.
pub open spec fn part_field(p: Seq<char>) -> Seq<Field> {
    match first_index_of(p, '=') {
        Some(i) => seq![(p.take(i), p.skip(i + 1))],
        None => Seq::empty(),
    }
}

pub open spec fn fields_of_parts(ps: Seq<Seq<char>>) -> Seq<Field>
    decreases ps.len(),
{
    if ps.len() == 0 {
        Seq::empty()
    } else {
        part_field(ps[0]) + fields_of_parts(ps.drop_first())
    }
}

/// The `key=value` pairs of a tab-separated list, in order.
pub open spec fn tab_pairs(s: Seq<char>) -> Seq<Field> {
    fields_of_parts(split_on(s, '\t'))
}

/// A piece of text held as characters.
pub type Chars = Vec<char>;

/// The view of a list of `(key, value)` character vectors.
pub open spec fn pairs_view(v: Seq<(Chars, Chars)>) -> Seq<Field> {
    v.map_values(|p: (Chars, Chars)| (p.0@, p.1@))
}

pub proof fn lemma_split_step(s: Seq<char>, c: char, start: int, i: int)
    requires
        0 <= start <= i < s.len(),
        s[i] == c,
        forall|j: int| start <= j < i ==> s[j] != c,
    ensures
        split_on(s.skip(start), c) == seq![s.subrange(start, i)] + split_on(s.skip(i + 1), c),
{
    let t = s.skip(start);
    assert(t[i - start] == c);
    assert forall|j: int| 0 <= j < i - start implies t[j] != c by {
        assert(t[j] == s[start + j]);
    }
    crate::text::lemma_first_index_of_unique(t, c, i - start);
    assert(t.take(i - start) =~= s.subrange(start, i));
    assert(t.skip(i - start + 1) =~= s.skip(i + 1));
}

pub proof fn lemma_split_last(s: Seq<char>, c: char, start: int)
    requires
        0 <= start <= s.len(),
        forall|j: int| start <= j < s.len() ==> s[j] != c,
    ensures
        split_on(s.skip(start), c) == seq![s.skip(start)],
{
    let t = s.skip(start);
    lemma_first_index_of(t, c);
    if first_index_of(t, c) is Some {
        let k = first_index_of(t, c).unwrap();
        assert(t[k] == s[start + k]);
    }
}

/// The `(key, value)` pair of one part, if it holds `=`.
fn part_pair(v: &Vec<char>, start: usize, end: usize, out: &mut Vec<(Chars, Chars)>)
    requires
        start <= end <= v@.len(),
    ensures
        pairs_view(final(out)@) == pairs_view(old(out)@) + part_field(v@.subrange(start as int, end as int)),
{
    let ghost p = v@.subrange(start as int, end as int);
    proof {
        lemma_first_index_of(p, '=');
    }
    let mut k = start;
    while k < end && v[k] != '='
        invariant
            start <= k <= end <= v@.len(),
            p == v@.subrange(start as int, end as int),
            forall|j: int| start <= j < k ==> v@[j] != '=',
        decreases end - k,
    {
        k = k + 1;
    }
    if k < end {
        proof {
            assert forall|j: int| 0 <= j < k - start implies p[j] != '=' by {
                assert(p[j] == v@[start + j]);
            }
            crate::text::lemma_first_index_of_unique(p, '=', k - start);
        }
        let key = slice_to_vec_chars(v.as_slice(), start, k);
        let val = slice_to_vec_chars(v.as_slice(), k + 1, end);
        let ghost before = out@;
        out.push((key, val));
        assert(p.take(k - start) =~= key@);
        assert(p.skip(k - start + 1) =~= val@);
        assert(pairs_view(out@) =~= pairs_view(before) + part_field(p));
    } else {
        proof {
            if first_index_of(p, '=') is Some {
                let i = first_index_of(p, '=').unwrap();
                assert(p[i] == v@[start + i]);
            }
        }
        assert(pairs_view(out@) =~= pairs_view(old(out)@) + part_field(p));
    }
}

/// The `key=value` pairs of a tab-separated list, in order (`parse_header`).
pub fn parse_tab_pairs(v: &Vec<char>) -> (r: Vec<(Chars, Chars)>)
    ensures
        pairs_view(r@) == tab_pairs(v@),
{
    let mut out: Vec<(Chars, Chars)> = Vec::new();
    let n = v.len();
    let mut start: usize = 0;
    let mut i: usize = 0;
    assert(v@.skip(0) =~= v@);
    assert(pairs_view(out@) =~= Seq::<Field>::empty());
    while i < n
        invariant
            n == v@.len(),
            start <= i <= n,
            tab_pairs(v@) == pairs_view(out@) + fields_of_parts(split_on(v@.skip(start as int), '\t')),
            forall|j: int| start <= j < i ==> v@[j] != '\t',
        decreases n - i,
    {
        if v[i] == '\t' {
            proof {
                lemma_split_step(v@, '\t', start as int, i as int);
                let rest = split_on(v@.skip(i + 1), '\t');
                let ps = seq![v@.subrange(start as int, i as int)] + rest;
                assert(ps.drop_first() =~= rest);
                assert(ps[0] == v@.subrange(start as int, i as int));
            }
            let ghost before = out@;
            part_pair(v, start, i, &mut out);
            proof {
                let rest = fields_of_parts(split_on(v@.skip(i + 1), '\t'));
                assert(pairs_view(out@) + rest =~= pairs_view(before) + (part_field(
                    v@.subrange(start as int, i as int),
                ) + rest));
            }
            start = i + 1;
        }
        i = i + 1;
    }
    proof {
        lemma_split_last(v@, '\t', start as int);
        let ps = seq![v@.skip(start as int)];
        assert(ps.drop_first() =~= Seq::<Seq<char>>::empty());
        assert(fields_of_parts(ps.drop_first()) == Seq::<Field>::empty());
        assert(fields_of_parts(ps) == part_field(ps[0]) + fields_of_parts(ps.drop_first()));
        assert(v@.skip(start as int) =~= v@.subrange(start as int, n as int));
        assert(fields_of_parts(ps) =~= part_field(v@.subrange(start as int, n as int)));
    }
    let ghost before = out@;
    part_pair(v, start, n, &mut out);
    assert(pairs_view(out@) =~= pairs_view(before) + part_field(v@.subrange(start as int, n as int)));
    assert(tab_pairs(v@) =~= pairs_view(out@));
    out
}

// ── Lookup ───────────────────────────────────────────────────────────────────

/// The value of the last pair whose key is one of `keys` (a map built by
/// inserting the pairs in order keeps exactly this value).
pub open spec fn last_value(pairs: Seq<Field>, keys: Seq<Seq<char>>) -> Option<Seq<char>>
    decreases pairs.len(),
{
    if pairs.len() == 0 {
        None
    } else if keys.contains(pairs.last().0) {
        Some(pairs.last().1)
    } else {
        last_value(pairs.drop_last(), keys)
    }
}

/// The keys as character sequences.
pub open spec fn key_views(keys: Seq<&str>) -> Seq<Seq<char>> {
    keys.map_values(|k: &str| k@)
}

/// Whether `k` is one of `keys`.
fn key_in(k: &Vec<char>, keys: &[&str]) -> (r: bool)
    ensures
        r == key_views(keys@).contains(k@),
{
    let n = keys.len();
    for i in 0..n
        invariant
            n == keys@.len(),
            forall|j: int| 0 <= j < i ==> keys@[j]@ != k@,
    {
        if chars_eq_str(k.as_slice(), keys[i]) {
            assert(key_views(keys@)[i as int] == k@);
            return true;
        }
    }
    assert forall|j: int| 0 <= j < key_views(keys@).len() implies key_views(keys@)[j] != k@ by {
        assert(key_views(keys@)[j] == keys@[j]@);
    }
    false
}

/// Index of the last pair whose key is one of `keys`.
pub fn find_last(pairs: &Vec<(Chars, Chars)>, keys: &[&str]) -> (r: Option<usize>)
    ensures
        match r {
            Some(i) => i < pairs@.len() && last_value(pairs_view(pairs@), key_views(keys@)) == Some(
                pairs@[i as int].1@,
            ),
            None => last_value(pairs_view(pairs@), key_views(keys@)) is None,
        },
{
    let ghost ks = key_views(keys@);
    let mut i = pairs.len();
    assert(pairs@.take(i as int) =~= pairs@);
    while i > 0
        invariant
            i <= pairs@.len(),
            ks == key_views(keys@),
            last_value(pairs_view(pairs@), ks) == last_value(pairs_view(pairs@.take(i as int)), ks),
        decreases i,
    {
        let ghost t = pairs_view(pairs@.take(i as int));
        assert(t.last() == (pairs@[i - 1].0@, pairs@[i - 1].1@));
        assert(t.drop_last() =~= pairs_view(pairs@.take(i - 1)));
        if key_in(&pairs[i - 1].0, keys) {
            return Some(i - 1);
        }
        i = i - 1;
    }
    assert(pairs_view(pairs@.take(0)) =~= Seq::<Field>::empty());
    None
}

/// The characters of the value of the last pair whose key is one of `keys`,
/// or nothing.
pub fn last_value_chars(pairs: &Vec<(Chars, Chars)>, keys: &[&str]) -> (r: Option<Vec<char>>)
    ensures
        match r {
            Some(v) => last_value(pairs_view(pairs@), key_views(keys@)) == Some(v@),
            None => last_value(pairs_view(pairs@), key_views(keys@)) is None,
        },
{
    match find_last(pairs, keys) {
        Some(i) => Some(slice_to_vec_chars(pairs[i].1.as_slice(), 0, pairs[i].1.len())),
        None => None,
    }
}

// ── Lines ────────────────────────────────────────────────────────────────────

/// A line without one trailing `\r`.
pub open spec fn strip_cr(l: Seq<char>) -> Seq<char> {
    if l.len() > 0 && l.last() == '\r' {
        l.drop_last()
    } else {
        l
    }
}

/// `str::lines`: split at `\n`, a `\r` before each `\n` removed, no final
/// empty line.
pub open spec fn lines_of(s: Seq<char>) -> Seq<Seq<char>> {
    let ps = split_on(s, '\n');
    let init = ps.drop_last().map_values(|l: Seq<char>| strip_cr(l));
    if ps.last().len() == 0 {
        init
    } else {
        init.push(ps.last())
    }
}

pub proof fn lemma_split_nonempty(s: Seq<char>, c: char)
    ensures
        split_on(s, c).len() >= 1,
    decreases s.len(),
{
    lemma_first_index_of(s, c);
    match first_index_of(s, c) {
        Some(i) => {
            lemma_split_nonempty(s.skip(i + 1), c);
        },
        None => {},
    }
}

/// The lines of `v`, each as a range `(start, end)` of `v`.
pub fn line_ranges(v: &Vec<char>) -> (r: Vec<(usize, usize)>)
    ensures
        r@.len() == lines_of(v@).len(),
        forall|i: int| #![trigger r@[i]] 0 <= i < r@.len() ==> r@[i].0 <= r@[i].1 && r@[i].1 <= v@.len(),
        forall|i: int|
            0 <= i < r@.len() ==> #[trigger] lines_of(v@)[i] == v@.subrange(
                r@[i].0 as int,
                r@[i].1 as int,
            ),
{
    let mut out: Vec<(usize, usize)> = Vec::new();
    let n = v.len();
    let mut start: usize = 0;
    let mut i: usize = 0;
    let ghost mut done: Seq<Seq<char>> = Seq::empty();
    assert(v@.skip(0) =~= v@);
    while i < n
        invariant
            n == v@.len(),
            start <= i <= n,
            split_on(v@, '\n') == done + split_on(v@.skip(start as int), '\n'),
            out@.len() == done.len(),
            forall|j: int| #![trigger out@[j]] 0 <= j < out@.len() ==> out@[j].0 <= out@[j].1 && out@[j].1 <= start,
            forall|j: int|
                0 <= j < out@.len() ==> #[trigger] strip_cr(done[j]) == v@.subrange(
                    out@[j].0 as int,
                    out@[j].1 as int,
                ),
            forall|j: int| start <= j < i ==> v@[j] != '\n',
        decreases n - i,
    {
        if v[i] == '\n' {
            proof {
                lemma_split_step(v@, '\n', start as int, i as int);
                let rest = split_on(v@.skip(i + 1), '\n');
                assert(done + (seq![v@.subrange(start as int, i as int)] + rest) =~= done.push(
                    v@.subrange(start as int, i as int),
                ) + rest);
            }
            let end = if i > start && v[i - 1] == '\r' {
                i - 1
            } else {
                i
            };
            let ghost piece = v@.subrange(start as int, i as int);
            assert(strip_cr(piece) =~= v@.subrange(start as int, end as int));
            let ghost old_done = done;
            let ghost old_out = out@;
            out.push((start, end));
            proof {
                done = done.push(piece);
                assert forall|j: int| 0 <= j < out@.len() implies #[trigger] strip_cr(done[j])
                    == v@.subrange(out@[j].0 as int, out@[j].1 as int) by {
                    if j < old_out.len() {
                        assert(done[j] == old_done[j]);
                        assert(out@[j] == old_out[j]);
                    } else {
                        assert(done[j] == piece);
                    }
                }
                assert forall|j: int| #![trigger out@[j]] 0 <= j < out@.len() implies out@[j].0
                    <= out@[j].1 && out@[j].1 <= i + 1 by {
                    if j < old_out.len() {
                        assert(out@[j] == old_out[j]);
                        assert(old_out[j].0 <= old_out[j].1 && old_out[j].1 <= start);
                    } else {
                        assert(out@[j] == (start, end));
                    }
                }
            }
            start = i + 1;
        }
        i = i + 1;
    }
    proof {
        lemma_split_last(v@, '\n', start as int);
    }
    let ghost ps = split_on(v@, '\n');
    assert(ps == done.push(v@.skip(start as int)));
    assert(ps.drop_last() =~= done);
    assert(ps.last() == v@.skip(start as int));
    let ghost init = done.map_values(|l: Seq<char>| strip_cr(l));
    let ghost before = out@;
    if start < n {
        assert(v@.skip(start as int) =~= v@.subrange(start as int, n as int));
        out.push((start, n));
        assert(lines_of(v@) =~= init.push(v@.skip(start as int)));
        assert forall|i: int| 0 <= i < out@.len() implies #[trigger] lines_of(v@)[i]
            == v@.subrange(out@[i].0 as int, out@[i].1 as int) by {
            if i < before.len() {
                assert(out@[i] == before[i]);
                assert(init[i] == strip_cr(done[i]));
            }
        }
        assert forall|i: int| #![trigger out@[i]] 0 <= i < out@.len() implies out@[i].0 <= out@[i].1
            && out@[i].1 <= v@.len() by {
            if i < before.len() {
                assert(out@[i] == before[i]);
            }
        }
    } else {
        assert(lines_of(v@) =~= init);
        assert forall|i: int| 0 <= i < out@.len() implies #[trigger] lines_of(v@)[i]
            == v@.subrange(out@[i].0 as int, out@[i].1 as int) by {
            assert(init[i] == strip_cr(done[i]));
        }
    }
    out
}


/// The pieces of `v` between occurrences of `c`, each as a range of `v`.
pub fn piece_ranges(v: &Vec<char>, c: char) -> (r: Vec<(usize, usize)>)
    ensures
        r@.len() == split_on(v@, c).len(),
        forall|i: int| #![trigger r@[i]] 0 <= i < r@.len() ==> r@[i].0 <= r@[i].1 && r@[i].1 <= v@.len(),
        forall|i: int|
            0 <= i < r@.len() ==> #[trigger] split_on(v@, c)[i] == v@.subrange(
                r@[i].0 as int,
                r@[i].1 as int,
            ),
{
    let mut out: Vec<(usize, usize)> = Vec::new();
    let n = v.len();
    let mut start: usize = 0;
    let mut i: usize = 0;
    let ghost mut done: Seq<Seq<char>> = Seq::empty();
    assert(v@.skip(0) =~= v@);
    while i < n
        invariant
            n == v@.len(),
            start <= i <= n,
            split_on(v@, c) == done + split_on(v@.skip(start as int), c),
            out@.len() == done.len(),
            forall|j: int| #![trigger out@[j]] 0 <= j < out@.len() ==> out@[j].0 <= out@[j].1 && out@[j].1 <= start,
            forall|j: int|
                0 <= j < out@.len() ==> #[trigger] done[j] == v@.subrange(
                    out@[j].0 as int,
                    out@[j].1 as int,
                ),
            forall|j: int| start <= j < i ==> v@[j] != c,
        decreases n - i,
    {
        if v[i] == c {
            proof {
                lemma_split_step(v@, c, start as int, i as int);
                let rest = split_on(v@.skip(i + 1), c);
                assert(done + (seq![v@.subrange(start as int, i as int)] + rest) =~= done.push(
                    v@.subrange(start as int, i as int),
                ) + rest);
            }
            let ghost piece = v@.subrange(start as int, i as int);
            let ghost old_done = done;
            let ghost old_out = out@;
            out.push((start, i));
            proof {
                done = done.push(piece);
                assert forall|j: int| 0 <= j < out@.len() implies #[trigger] done[j]
                    == v@.subrange(out@[j].0 as int, out@[j].1 as int) by {
                    if j < old_out.len() {
                        assert(done[j] == old_done[j]);
                        assert(out@[j] == old_out[j]);
                    } else {
                        assert(done[j] == piece);
                    }
                }
                assert forall|j: int| #![trigger out@[j]] 0 <= j < out@.len() implies out@[j].0
                    <= out@[j].1 && out@[j].1 <= i + 1 by {
                    if j < old_out.len() {
                        assert(out@[j] == old_out[j]);
                        assert(old_out[j].0 <= old_out[j].1 && old_out[j].1 <= start);
                    } else {
                        assert(out@[j] == (start, i));
                    }
                }
            }
            start = i + 1;
        }
        i = i + 1;
    }
    proof {
        lemma_split_last(v@, c, start as int);
    }
    let ghost before = out@;
    assert(v@.skip(start as int) =~= v@.subrange(start as int, n as int));
    out.push((start, n));
    assert(split_on(v@, c) == done.push(v@.skip(start as int)));
    assert forall|i: int| 0 <= i < out@.len() implies #[trigger] split_on(v@, c)[i]
        == v@.subrange(out@[i].0 as int, out@[i].1 as int) by {
        if i < before.len() {
            assert(out@[i] == before[i]);
            assert(split_on(v@, c)[i] == done[i]);
        }
    }
    assert forall|i: int| #![trigger out@[i]] 0 <= i < out@.len() implies out@[i].0 <= out@[i].1
        && out@[i].1 <= v@.len() by {
        if i < before.len() {
            assert(out@[i] == before[i]);
        }
    }
    out
}

} // verus!
