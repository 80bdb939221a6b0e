//! Small string helpers shared by the formatting code: character access,
//! decimal rendering and column fitting.

use vstd::prelude::*;
use vstd::std_specs::iter::IteratorSpec;

verus! {

broadcast use vstd::string::group_string_axioms;

/// Appends `c` to the end of `s` (`String::push`).
#[verifier::external_body]
pub(crate) fn push_char(s: &mut String, c: char)
    ensures
        final(s)@ == old(s)@.push(c),
{
    s.push(c);
}

/// The characters of `s`, in order.
pub fn chars_of(s: &str) -> (v: Vec<char>)
    ensures
        v@ == s@,
{
    let mut it = s.chars();
    let mut v: Vec<char> = Vec::new();
    loop
        invariant
            v@ + it.remaining() == s@,
            it.decrease() is Some,
        ensures
            v@ == s@,
        decreases it.decrease()->0,
    {
        match it.next() {
            Some(c) => {
                v.push(c);
            },
            None => {
                break ;
            },
        }
    }
    v
}

/// The spec of the ASCII digit for `d` (`0 <= d < 10`).
pub open spec fn digit_spec(d: nat) -> char {
    if d == 0 { '0' }
    else if d == 1 { '1' }
    else if d == 2 { '2' }
    else if d == 3 { '3' }
    else if d == 4 { '4' }
    else if d == 5 { '5' }
    else if d == 6 { '6' }
    else if d == 7 { '7' }
    else if d == 8 { '8' }
    else { '9' }
}

/// Decimal rendering of a natural number, most significant digit first.
pub open spec fn decimal(n: nat) -> Seq<char>
    decreases n,
{
    if n < 10 {
        seq![digit_spec(n)]
    } else {
        decimal(n / 10).push(digit_spec(n % 10))
    }
}

fn digit(d: u64) -> (c: char)
    requires
        d < 10,
    ensures
        c == digit_spec(d as nat),
{
    if d == 0 { '0' }
    else if d == 1 { '1' }
    else if d == 2 { '2' }
    else if d == 3 { '3' }
    else if d == 4 { '4' }
    else if d == 5 { '5' }
    else if d == 6 { '6' }
    else if d == 7 { '7' }
    else if d == 8 { '8' }
    else { '9' }
}

/// Renders `n` in decimal, as `n.to_string()` does.
pub fn u64_to_decimal(n: u64) -> (r: String)
    ensures
        r@ == decimal(n as nat),
    decreases n,
{
    if n < 10 {
        let mut s = String::new();
        push_char(&mut s, digit(n));
        s
    } else {
        let mut s = u64_to_decimal(n / 10);
        push_char(&mut s, digit(n % 10));
        s
    }
}

/// Decimal rendering of a signed number, with a leading `-` when negative.
pub open spec fn signed_decimal(n: int) -> Seq<char> {
    if n < 0 {
        seq!['-'] + decimal((-n) as nat)
    } else {
        decimal(n as nat)
    }
}

/// Renders `n` in decimal, as `n.to_string()` does.
pub fn i64_to_decimal(n: i64) -> (r: String)
    ensures
        r@ == signed_decimal(n as int),
{
    if n < 0 {
        let magnitude: u64 = if n == i64::MIN {
            9223372036854775808u64
        } else {
            (-n) as u64
        };
        let digits = u64_to_decimal(magnitude);
        let mut s = String::new();
        push_char(&mut s, '-');
        s.append(digits.as_str());
        s
    } else {
        u64_to_decimal(n as u64)
    }
}

/// Whether two character vectors hold the same characters.
pub fn chars_equal(a: &Vec<char>, b: &Vec<char>) -> (r: bool)
    ensures
        r == (a@ == b@),
{
    if a.len() != b.len() {
        return false;
    }
    let mut i: usize = 0;
    while i < a.len()
        invariant
            a.len() == b.len(),
            i <= a.len(),
            forall|j: int| 0 <= j < i ==> a@[j] == b@[j],
        decreases a.len() - i,
    {
        if a[i] != b[i] {
            return false;
        }
        i = i + 1;
    }
    assert(a@ =~= b@);
    true
}

/// Whether two strings hold the same characters (`a == b`).
pub fn str_equal(a: &str, b: &str) -> (r: bool)
    ensures
        r == (a@ == b@),
{
    let ca = chars_of(a);
    let cb = chars_of(b);
    chars_equal(&ca, &cb)
}

/// A `String` holding exactly the characters of `v`.
pub fn string_from_chars(v: &Vec<char>) -> (r: String)
    ensures
        r@ == v@,
{
    let mut s = String::new();
    let mut i: usize = 0;
    while i < v.len()
        invariant
            i <= v.len(),
            s@ == v@.take(i as int),
        decreases v.len() - i,
    {
        push_char(&mut s, v[i]);
        assert(v@.take(i + 1) =~= v@.take(i as int).push(v@[i as int]));
        i = i + 1;
    }
    assert(v@.take(v.len() as int) =~= v@);
    s
}

/// The text of an optional string, or `default` when absent.
pub open spec fn text_or(o: Option<String>, default: Seq<char>) -> Seq<char> {
    match o {
        Some(s) => s@,
        None => default,
    }
}

/// The texts of an optional string list, or no texts when absent.
pub open spec fn texts_or_empty(o: Option<Vec<String>>) -> Seq<Seq<char>> {
    match o {
        Some(v) => v.deep_view(),
        None => Seq::empty(),
    }
}

/// `v` in reverse order.
pub fn reverse_vec<T>(v: Vec<T>) -> (r: Vec<T>)
    ensures
        r@ == v@.reverse(),
{
    let ghost orig = v@;
    let mut rest = v;
    let mut out: Vec<T> = Vec::new();
    while rest.len() > 0
        invariant
            rest@ == orig.take(rest@.len() as int),
            rest@.len() <= orig.len(),
            out@ == orig.skip(rest@.len() as int).reverse(),
        decreases rest@.len(),
    {
        let ghost n = rest@.len();
        let x = rest.pop().unwrap();
        out.push(x);
        assert(rest@ =~= orig.take(rest@.len() as int));
        assert(out@ =~= orig.skip(rest@.len() as int).reverse());
    }
    assert(orig.skip(0) =~= orig);
    out
}

/// An independent copy of an optional string.
pub fn copy_opt_string(o: &Option<String>) -> (r: Option<String>)
    ensures
        r.deep_view() == o.deep_view(),
{
    match o {
        Some(s) => Some(s.clone()),
        None => None,
    }
}

/// An independent copy of a list of strings.
pub fn copy_strings(v: &Vec<String>) -> (r: Vec<String>)
    ensures
        r.deep_view() == v.deep_view(),
{
    let mut out: Vec<String> = Vec::new();
    let mut i: usize = 0;
    while i < v.len()
        invariant
            i <= v.len(),
            out@.len() == i,
            forall|j: int| 0 <= j < i ==> #[trigger] out@[j]@ == v@[j]@,
        decreases v.len() - i,
    {
        out.push(v[i].clone());
        i = i + 1;
    }
    assert(out.deep_view() =~= v.deep_view());
    out
}

/// Removes the last character of `s` and hands it back (`String::pop`).
#[verifier::external_body]
pub(crate) fn pop_char(s: &mut String) -> (c: Option<char>)
    ensures
        old(s)@.len() == 0 ==> c is None && final(s)@ == old(s)@,
        old(s)@.len() > 0 ==> c == Some(old(s)@.last()) && final(s)@ == old(s)@.drop_last(),
{
    s.pop()
}

/// Whether `c` has the Unicode `White_Space` property, the set that
/// `str::trim` removes.
pub open spec fn is_white_space(c: char) -> bool {
    let u = c as u32;
    (0x09 <= u && u <= 0x0d) || u == 0x20 || u == 0x85 || u == 0xa0 || u == 0x1680
        || (0x2000 <= u && u <= 0x200a) || u == 0x2028 || u == 0x2029 || u == 0x202f
        || u == 0x205f || u == 0x3000
}

/// Whether `c` is white space (see [`is_white_space`]).
pub fn white_space(c: char) -> (r: bool)
    ensures
        r == is_white_space(c),
{
    let u = c as u32;
    (0x09 <= u && u <= 0x0d) || u == 0x20 || u == 0x85 || u == 0xa0 || u == 0x1680
        || (0x2000 <= u && u <= 0x200a) || u == 0x2028 || u == 0x2029 || u == 0x202f
        || u == 0x205f || u == 0x3000
}

/// Number of leading white-space characters of `s`.
pub open spec fn leading_ws(s: Seq<char>) -> nat
    decreases s.len(),
{
    if s.len() > 0 && is_white_space(s[0]) { 1 + leading_ws(s.drop_first()) } else { 0 }
}

/// Number of trailing white-space characters of `s`.
pub open spec fn trailing_ws(s: Seq<char>) -> nat
    decreases s.len(),
{
    if s.len() > 0 && is_white_space(s.last()) { 1 + trailing_ws(s.drop_last()) } else { 0 }
}

/// `s` without its leading and trailing white space, as `str::trim` gives it.
pub open spec fn trimmed(s: Seq<char>) -> Seq<char> {
    let a = leading_ws(s) as int;
    if a == s.len() { Seq::empty() } else { s.subrange(a, s.len() - trailing_ws(s)) }
}

proof fn lemma_leading_ws_bound(s: Seq<char>)
    ensures
        leading_ws(s) <= s.len(),
        forall|i: int| 0 <= i < leading_ws(s) ==> is_white_space(#[trigger] s[i]),
        leading_ws(s) < s.len() ==> !is_white_space(s[leading_ws(s) as int]),
    decreases s.len(),
{
    if s.len() > 0 && is_white_space(s[0]) {
        lemma_leading_ws_bound(s.drop_first());
        assert forall|i: int| 0 <= i < leading_ws(s) implies is_white_space(#[trigger] s[i]) by {
            if i > 0 {
                assert(s[i] == s.drop_first()[i - 1]);
            }
        }
    }
}

proof fn lemma_trailing_ws_bound(s: Seq<char>)
    ensures
        trailing_ws(s) <= s.len(),
        forall|i: int|
            s.len() - trailing_ws(s) <= i < s.len() ==> is_white_space(#[trigger] s[i]),
        trailing_ws(s) < s.len() ==> !is_white_space(s[s.len() - trailing_ws(s) - 1]),
    decreases s.len(),
{
    if s.len() > 0 && is_white_space(s.last()) {
        lemma_trailing_ws_bound(s.drop_last());
        assert forall|i: int|
            s.len() - trailing_ws(s) <= i < s.len() implies is_white_space(#[trigger] s[i]) by {
            if i < s.len() - 1 {
                assert(s[i] == s.drop_last()[i]);
            }
        }
    }
}

/// The characters of `s` with leading and trailing white space removed
/// (`str::trim`).
pub fn trim_chars(s: &str) -> (r: Vec<char>)
    ensures
        r@ == trimmed(s@),
{
    let v = chars_of(s);
    let n = v.len();
    let mut a: usize = 0;
    proof {
        lemma_leading_ws_bound(v@);
    }
    while a < n && white_space(v[a])
        invariant
            n == v@.len(),
            a <= leading_ws(v@),
            leading_ws(v@) <= n,
            forall|i: int| 0 <= i < leading_ws(v@) ==> is_white_space(#[trigger] v@[i]),
            leading_ws(v@) < n ==> !is_white_space(v@[leading_ws(v@) as int]),
        decreases n - a,
    {
        a = a + 1;
    }
    assert(a == leading_ws(v@));
    let mut out: Vec<char> = Vec::new();
    if a == n {
        assert(out@ =~= trimmed(s@));
        return out;
    }
    let mut b: usize = n;
    proof {
        lemma_trailing_ws_bound(v@);
    }
    while b > a && white_space(v[b - 1])
        invariant
            n == v@.len(),
            a < n,
            a <= b <= n,
            n - b <= trailing_ws(v@),
            trailing_ws(v@) <= n,
            forall|i: int|
                n - trailing_ws(v@) <= i < n ==> is_white_space(#[trigger] v@[i]),
            trailing_ws(v@) < n ==> !is_white_space(v@[n - trailing_ws(v@) - 1]),
            !is_white_space(v@[a as int]),
        decreases b,
    {
        b = b - 1;
    }
    assert(b == n - trailing_ws(v@));
    let mut i: usize = a;
    while i < b
        invariant
            a <= i <= b <= n,
            n == v@.len(),
            out@ == v@.subrange(a as int, i as int),
        decreases b - i,
    {
        out.push(v[i]);
        i = i + 1;
    }
    out
}

/// `s` without leading and trailing white space, as a new `String`.
pub fn trim_string(s: &str) -> (r: String)
    ensures
        r@ == trimmed(s@),
{
    let v = trim_chars(s);
    string_from_chars(&v)
}

/// Bytes that `c` takes in UTF-8.
pub open spec fn utf8_width(c: char) -> nat {
    let u = c as u32;
    if u < 0x80 { 1 } else if u < 0x800 { 2 } else if u < 0x10000 { 3 } else { 4 }
}

/// Bytes that `s` takes in UTF-8 (what `str::len` returns).
pub open spec fn utf8_len(s: Seq<char>) -> nat
    decreases s.len(),
{
    if s.len() == 0 { 0 } else { utf8_len(s.drop_last()) + utf8_width(s.last()) }
}

/// Bytes that `c` takes in UTF-8 (`char::len_utf8`).
pub fn char_width(c: char) -> (w: usize)
    ensures
        w == utf8_width(c),
{
    let u = c as u32;
    if u < 0x80 { 1 } else if u < 0x800 { 2 } else if u < 0x10000 { 3 } else { 4 }
}

/// The longest prefix of `s` whose UTF-8 encoding fits in `n` bytes: the
/// text that slicing at the largest char boundary `<= n` keeps.
pub open spec fn prefix_within_bytes(s: Seq<char>, n: int) -> Seq<char>
    decreases s.len(),
{
    if s.len() == 0 {
        s
    } else if utf8_len(s) <= n {
        s
    } else {
        prefix_within_bytes(s.drop_last(), n)
    }
}

/// `s.get(..n)`: the prefix of `s` that is exactly `n` bytes long, if `n`
/// falls on a char boundary of `s`.
pub open spec fn byte_prefix(s: Seq<char>, n: int) -> Option<Seq<char>> {
    let p = prefix_within_bytes(s, n);
    if utf8_len(p) == n { Some(p) } else { None }
}

pub(crate) proof fn lemma_utf8_len_take(s: Seq<char>, k: int)
    requires
        0 <= k < s.len(),
    ensures
        utf8_len(s.take(k + 1)) == utf8_len(s.take(k)) + utf8_width(s[k]),
{
    assert(s.take(k + 1).drop_last() =~= s.take(k));
}

proof fn lemma_utf8_len_mono(s: Seq<char>, j: int, k: int)
    requires
        0 <= j <= k <= s.len(),
    ensures
        utf8_len(s.take(j)) <= utf8_len(s.take(k)),
    decreases k - j,
{
    if j < k {
        lemma_utf8_len_mono(s, j, k - 1);
        lemma_utf8_len_take(s, k - 1);
    }
}

pub(crate) proof fn lemma_prefix_within_is_take(s: Seq<char>, n: int, k: int)
    requires
        0 <= k <= s.len(),
        n >= 0,
        utf8_len(s.take(k)) <= n,
        k == s.len() || utf8_len(s.take(k + 1)) > n,
    ensures
        prefix_within_bytes(s, n) == s.take(k),
    decreases s.len(),
{
    if s.len() == 0 {
        assert(s.take(k) =~= s);
    } else if k == s.len() {
        assert(s.take(k) =~= s);
    } else {
        assert(utf8_len(s) > n) by {
            lemma_utf8_len_mono(s, k + 1, s.len() as int);
            assert(s.take(s.len() as int) =~= s);
        }
        let t = s.drop_last();
        assert(t.take(k) =~= s.take(k));
        if k + 1 <= t.len() {
            assert(t.take(k + 1) =~= s.take(k + 1));
        }
        lemma_prefix_within_is_take(t, n, k);
    }
}

/// The longest prefix of `v` that fits in `n` bytes, with its byte length
/// and character count.
fn prefix_within(v: &Vec<char>, n: usize) -> (res: (String, usize, usize))
    ensures
        res.0@ == prefix_within_bytes(v@, n as int),
        res.0@ == v@.take(res.2 as int),
        res.1 == utf8_len(res.0@),
        res.1 <= n,
        res.2 <= v@.len(),
        res.2 < v@.len() ==> utf8_len(v@) > n,
{
    let mut k: usize = 0;
    let mut used: usize = 0;
    let mut out = String::new();
    while k < v.len()
        invariant_except_break
            k <= v@.len(),
            used == utf8_len(v@.take(k as int)),
            used <= n,
            out@ == v@.take(k as int),
        ensures
            k <= v@.len(),
            used == utf8_len(v@.take(k as int)),
            used <= n,
            out@ == v@.take(k as int),
            k == v@.len() || utf8_len(v@.take(k + 1)) > n,
        decreases v@.len() - k,
    {
        let w = char_width(v[k]);
        proof {
            lemma_utf8_len_take(v@, k as int);
        }
        if w > n - used {
            break;
        }
        used = used + w;
        push_char(&mut out, v[k]);
        assert(v@.take(k + 1) =~= v@.take(k as int).push(v@[k as int]));
        k = k + 1;
    }
    proof {
        lemma_prefix_within_is_take(v@, n as int, k as int);
        if k < v@.len() {
            lemma_utf8_len_mono(v@, k + 1, v@.len() as int);
            assert(v@.take(v@.len() as int) =~= v@);
        }
    }
    (out, used, k)
}

/// The first `n` bytes of `s` as text, or `None` when byte `n` is not a
/// char boundary of `s` (`s.get(..n)`).
pub fn get_byte_prefix(s: &str, n: usize) -> (r: Option<String>)
    ensures
        match byte_prefix(s@, n as int) {
            Some(p) => r is Some && r->0@ == p,
            None => r is None,
        },
{
    let v = chars_of(s);
    let (out, used, _k) = prefix_within(&v, n);
    if used == n {
        Some(out)
    } else {
        None
    }
}

/// The first eight bytes of an identifier, or nothing when the eighth byte
/// splits a character (`id.get(..8.min(id.len())).unwrap_or("")`).
pub open spec fn id_prefix(s: Seq<char>) -> Seq<char> {
    let n = if utf8_len(s) < 8 { utf8_len(s) as int } else { 8 };
    match byte_prefix(s, n) {
        Some(p) => p,
        None => Seq::empty(),
    }
}

/// The short form of an identifier shown in messages (see [`id_prefix`]).
pub fn short_id(s: &str) -> (r: String)
    ensures
        r@ == id_prefix(s@),
{
    let v = chars_of(s);
    let (out, used, k) = prefix_within(&v, 8);
    if k == v.len() {
        proof {
            assert(v@.take(k as int) =~= v@);
            lemma_prefix_within_is_take(v@, used as int, k as int);
        }
        out
    } else if used == 8 {
        out
    } else {
        String::new()
    }
}


/// `n` copies of `c`.
pub fn repeat_char(c: char, n: usize) -> (r: String)
    ensures
        r@ == Seq::new(n as nat, |i: int| c),
{
    let mut s = String::new();
    let mut i: usize = 0;
    while i < n
        invariant
            i <= n,
            s@ == Seq::new(i as nat, |j: int| c),
        decreases n - i,
    {
        push_char(&mut s, c);
        assert(s@ =~= Seq::new((i + 1) as nat, |j: int| c));
        i = i + 1;
    }
    s
}

/// `s` followed by spaces up to `width` characters (`{:<width}`); longer
/// texts are kept whole.
pub open spec fn padded(s: Seq<char>, width: nat) -> Seq<char> {
    if s.len() >= width { s } else { s + Seq::new((width - s.len()) as nat, |i: int| ' ') }
}

/// `s` padded with spaces to `width` characters (see [`padded`]).
pub fn pad_right(s: &str, width: usize) -> (r: String)
    ensures
        r@ == padded(s@, width as nat),
{
    let v = chars_of(s);
    let mut out = string_from_chars(&v);
    if v.len() < width {
        let pad = repeat_char(' ', width - v.len());
        out.append(pad.as_str());
    }
    out
}

/// The texts of `items` with `sep` between consecutive ones.
pub open spec fn joined(items: Seq<Seq<char>>, sep: Seq<char>) -> Seq<char>
    decreases items.len(),
{
    if items.len() == 0 {
        Seq::empty()
    } else if items.len() == 1 {
        items[0]
    } else {
        joined(items.drop_last(), sep) + sep + items.last()
    }
}

/// The strings of `items` joined by `sep` (`slice::join`).
pub fn join_texts(items: &Vec<String>, sep: &str) -> (r: String)
    ensures
        r@ == joined(items.deep_view(), sep@),
{
    let mut out = String::new();
    let mut i: usize = 0;
    while i < items.len()
        invariant
            i <= items@.len(),
            out@ == joined(items.deep_view().take(i as int), sep@),
        decreases items@.len() - i,
    {
        let ghost prev = items.deep_view().take(i as int);
        assert(items.deep_view().take(i + 1).drop_last() =~= prev);
        assert(items.deep_view().take(i + 1).last() == items@[i as int]@);
        if i > 0 {
            out.append(sep);
        } else {
            assert(prev.len() == 0);
        }
        out.append(items[i].as_str());
        i = i + 1;
    }
    assert(items.deep_view().take(items@.len() as int) =~= items.deep_view());
    out
}

/// Whether `a` sorts strictly before `b`, character by character (the
/// order of `str`, since UTF-8 keeps the order of code points).
pub open spec fn lex_lt(a: Seq<char>, b: Seq<char>) -> bool
    decreases a.len(),
{
    if a.len() == 0 {
        b.len() > 0
    } else if b.len() == 0 {
        false
    } else if a[0] != b[0] {
        (a[0] as u32) < (b[0] as u32)
    } else {
        lex_lt(a.drop_first(), b.drop_first())
    }
}

/// `lex_lt` is a strict total order.
pub proof fn lemma_lex_order(a: Seq<char>, b: Seq<char>, c: Seq<char>)
    ensures
        !lex_lt(a, a),
        lex_lt(a, b) ==> !lex_lt(b, a),
        a != b ==> lex_lt(a, b) || lex_lt(b, a),
        lex_lt(a, b) && lex_lt(b, c) ==> lex_lt(a, c),
    decreases a.len() + b.len() + c.len(),
{
    if a.len() > 0 && b.len() > 0 && c.len() > 0 {
        lemma_lex_order(a.drop_first(), b.drop_first(), c.drop_first());
    } else if a.len() > 0 && b.len() > 0 {
        lemma_lex_order(a.drop_first(), b.drop_first(), c);
    } else if a.len() > 0 && c.len() > 0 {
        lemma_lex_order(a.drop_first(), b, c.drop_first());
    } else if a.len() > 0 {
        lemma_lex_order(a.drop_first(), b, c);
    }
    if a.len() > 0 && b.len() > 0 && a != b && a[0] == b[0] {
        assert(a =~= seq![a[0]] + a.drop_first());
        assert(b =~= seq![b[0]] + b.drop_first());
    }
    if a.len() == 0 && b.len() == 0 {
        assert(a =~= b);
    }
    if a.len() > 0 && b.len() > 0 && (a[0] as u32) == (b[0] as u32) {
        vstd::utf8::char_u32_cast(a[0], a[0] as u32);
        vstd::utf8::char_u32_cast(b[0], b[0] as u32);
    }
}

/// Whether `a` sorts strictly before `b` (see [`lex_lt`]).
pub fn text_less(a: &str, b: &str) -> (r: bool)
    ensures
        r == lex_lt(a@, b@),
{
    let va = chars_of(a);
    let vb = chars_of(b);
    let mut i: usize = 0;
    assert(va@.skip(0) =~= va@);
    assert(vb@.skip(0) =~= vb@);
    while i < va.len() && i < vb.len() && va[i] == vb[i]
        invariant
            i <= va@.len(),
            i <= vb@.len(),
            lex_lt(va@, vb@) == lex_lt(va@.skip(i as int), vb@.skip(i as int)),
        decreases va@.len() - i,
    {
        assert(va@.skip(i as int).drop_first() =~= va@.skip(i + 1));
        assert(vb@.skip(i as int).drop_first() =~= vb@.skip(i + 1));
        i = i + 1;
    }
    let ghost sa = va@.skip(i as int);
    let ghost sb = vb@.skip(i as int);
    if i == va.len() {
        assert(sa.len() == 0);
        i < vb.len()
    } else if i == vb.len() {
        assert(sb.len() == 0);
        false
    } else {
        assert(sa[0] == va@[i as int]);
        assert(sb[0] == vb@[i as int]);
        (va[i] as u32) < (vb[i] as u32)
    }
}


/// The prefix kept within `n` bytes takes at most `n` bytes.
pub proof fn lemma_prefix_within_fits(s: Seq<char>, n: int)
    requires
        n >= 0,
    ensures
        utf8_len(prefix_within_bytes(s, n)) <= n,
    decreases s.len(),
{
    if s.len() > 0 && utf8_len(s) > n {
        lemma_prefix_within_fits(s.drop_last(), n);
    }
}

/// The short form of an identifier takes at most eight bytes.
pub proof fn lemma_id_prefix_short(s: Seq<char>)
    ensures
        utf8_len(id_prefix(s)) <= 8,
{
    let n = if utf8_len(s) < 8 { utf8_len(s) as int } else { 8 };
    lemma_prefix_within_fits(s, n);
}

} // verus!
