//! Forwarding a recorded delivery to a local listener: which recorded
//! headers are sent along.

use vstd::prelude::*;
use crate::text::chars_of;

verus! {

/// Headers tied to the recorded request's own connection, never copied onto a
/// forwarded request.
pub const STRIPPED_HEADERS: [&'static str; 4] = ["host", "content-length", "connection", "transfer-encoding"];

/// `c` in ASCII lower case.
pub open spec fn ascii_lower(c: char) -> char {
    if 'A' <= c && c <= 'Z' { ((c as u8 + 32) as u8) as char } else { c }
}

/// Whether `a` and `b` are equal ignoring ASCII case.
pub open spec fn eq_ignore_ascii_case(a: Seq<char>, b: Seq<char>) -> bool {
    a.len() == b.len() && forall|i: int| 0 <= i < a.len() ==> ascii_lower(#[trigger] a[i]) == ascii_lower(b[i])
}

/// Whether a header named `name` is left out when forwarding.
pub open spec fn is_stripped(name: Seq<char>) -> bool {
    eq_ignore_ascii_case(name, "host"@) || eq_ignore_ascii_case(name, "content-length"@)
        || eq_ignore_ascii_case(name, "connection"@) || eq_ignore_ascii_case(name, "transfer-encoding"@)
}

fn lower(c: char) -> (r: char)
    ensures
        r == ascii_lower(c),
{
    if 'A' <= c && c <= 'Z' {
        let b: u8 = (c as u8) + 32;
        b as char
    } else {
        c
    }
}

/// Whether `a` and `b` are equal ignoring ASCII case
/// (`str::eq_ignore_ascii_case`).
pub fn same_ignoring_case(a: &str, b: &str) -> (r: bool)
    ensures
        r == eq_ignore_ascii_case(a@, b@),
{
    let va = chars_of(a);
    let vb = chars_of(b);
    if va.len() != vb.len() {
        return false;
    }
    let mut i: usize = 0;
    while i < va.len()
        invariant
            va.len() == vb.len(),
            va@ == a@,
            vb@ == b@,
            i <= va.len(),
            forall|j: int| 0 <= j < i ==> ascii_lower(#[trigger] va@[j]) == ascii_lower(vb@[j]),
        decreases va.len() - i,
    {
        if lower(va[i]) != lower(vb[i]) {
            assert(ascii_lower(a@[i as int]) != ascii_lower(b@[i as int]));
            return false;
        }
        i = i + 1;
    }
    true
}

/// Whether a header named `name` is left out when forwarding.
pub fn header_is_stripped(name: &str) -> (r: bool)
    ensures
        r == is_stripped(name@),
{
    same_ignoring_case(name, "host") || same_ignoring_case(name, "content-length")
        || same_ignoring_case(name, "connection") || same_ignoring_case(name, "transfer-encoding")
}

/// The headers a forward sends: the recorded ones that have a value and
/// are not tied to the transport hop, in recorded order.
pub open spec fn forwarded_headers(h: Seq<(Seq<char>, Option<Seq<char>>)>) -> Seq<(Seq<char>, Seq<char>)>
    decreases h.len(),
{
    if h.len() == 0 {
        Seq::empty()
    } else {
        let rest = forwarded_headers(h.drop_last());
        let (k, v) = h.last();
        match v {
            Some(val) => if is_stripped(k) { rest } else { rest.push((k, val)) },
            None => rest,
        }
    }
}

/// Picks the headers to send with a forward (see [`forwarded_headers`]).
pub fn forwardable_headers(headers: &Vec<(String, Option<String>)>) -> (r: Vec<(String, String)>)
    ensures
        r.deep_view() == forwarded_headers(headers.deep_view()),
{
    let mut out: Vec<(String, String)> = Vec::new();
    let mut i: usize = 0;
    while i < headers.len()
        invariant
            i <= headers@.len(),
            out.deep_view() == forwarded_headers(headers.deep_view().take(i as int)),
        decreases headers@.len() - i,
    {
        let ghost prev = out.deep_view();
        let ghost hv = headers.deep_view();
        assert(hv.take(i + 1).drop_last() =~= hv.take(i as int));
        assert(hv.take(i + 1).last() == hv[i as int]);
        let (k, v) = &headers[i];
        match v {
            Some(val) => {
                if !header_is_stripped(k.as_str()) {
                    out.push((k.clone(), val.clone()));
                    assert(out.deep_view() =~= prev.push((k@, val@)));
                }
            },
            None => {},
        }
        i = i + 1;
    }
    assert(headers.deep_view().take(headers@.len() as int) =~= headers.deep_view());
    out
}

/// Refuses to forward to an empty listener URL.
pub fn check_target(url: &str) -> (r: Result<(), String>)
    ensures
        url@.len() == 0 <==> r is Err,
        r matches Err(m) ==> m@ == "listener URL is empty"@,
{
    if url.is_empty() {
        Err(String::from_str("listener URL is empty"))
    } else {
        Ok(())
    }
}

} // verus!
