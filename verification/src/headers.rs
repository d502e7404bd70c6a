//! Header sequences and the case-insensitive lookup of control headers.
//!
//! Envelope headers are ordered `(name, value)` pairs.  Header names
//! compare ASCII-case-insensitively, as HTTP requires; lookup returns
//! the value of the first pair whose name matches.

use vstd::prelude::*;
use vstd::string::StrSliceExecFns;

verus! {

/// The code point of `c`, with ASCII upper-case letters folded to lower
/// case.
pub open spec fn lower_char(c: char) -> int {
    if 65 <= c as int <= 90 {
        c as int + 32
    } else {
        c as int
    }
}

/// Character equality up to ASCII case.
pub open spec fn chars_ieq(a: char, b: char) -> bool {
    lower_char(a) == lower_char(b)
}

/// Header-name equality: same length, characters equal up to ASCII case.
pub open spec fn names_match(a: Seq<char>, b: Seq<char>) -> bool {
    a.len() == b.len() && (forall|i: int| 0 <= i < a.len() ==> chars_ieq(#[trigger] a[i], b[i]))
}

/// The pair sequence underneath a header vector, string views taken.
pub open spec fn headers_view(hs: Seq<(String, String)>) -> Seq<(Seq<char>, Seq<char>)> {
    hs.map_values(|p: (String, String)| (p.0@, p.1@))
}

/// The value of the first header whose name matches `name` up to ASCII
/// case, if any.
pub open spec fn header_lookup(hs: Seq<(Seq<char>, Seq<char>)>, name: Seq<char>) -> Option<
    Seq<char>,
>
    decreases hs.len(),
{
    if hs.len() == 0 {
        None
    } else if names_match(hs[0].0, name) {
        Some(hs[0].1)
    } else {
        header_lookup(hs.subrange(1, hs.len() as int), name)
    }
}

fn lower_code(c: char) -> (r: u32)
    ensures
        r == lower_char(c),
{
    let v = c as u32;
    if 65 <= v && v <= 90 {
        v + 32
    } else {
        v
    }
}

/// Header-name comparison, ASCII-case-insensitive.
pub fn header_name_eq(a: &str, b: &str) -> (r: bool)
    ensures
        r == names_match(a@, b@),
{
    let n = a.unicode_len();
    let m = b.unicode_len();
    if n != m {
        return false;
    }
    let mut i: usize = 0;
    while i < n
        invariant
            n == a@.len(),
            n == b@.len(),
            0 <= i <= n,
            forall|j: int| 0 <= j < i ==> chars_ieq(#[trigger] a@[j], b@[j]),
        decreases n - i,
    {
        let ca = a.get_char(i);
        let cb = b.get_char(i);
        if lower_code(ca) != lower_code(cb) {
            return false;
        }
        i += 1;
    }
    true
}

/// A copy of a header vector, pair by pair.
pub fn clone_headers(hs: &Vec<(String, String)>) -> (r: Vec<(String, String)>)
    ensures
        r@ == hs@,
{
    let mut r: Vec<(String, String)> = Vec::new();
    let n = hs.len();
    let mut i: usize = 0;
    while i < n
        invariant
            n == hs@.len(),
            0 <= i <= n,
            r@.len() == i,
            forall|j: int| 0 <= j < i ==> r@[j] == hs@[j],
        decreases n - i,
    {
        let p = &hs[i];
        r.push((p.0.clone(), p.1.clone()));
        i += 1;
    }
    proof {
        assert(r@ =~= hs@);
    }
    r
}

/// The first header whose name matches `name` up to ASCII case.
pub fn find_header<'a>(headers: &'a Vec<(String, String)>, name: &str) -> (r: Option<&'a String>)
    ensures
        match r {
            Some(v) => header_lookup(headers_view(headers@), name@) == Some(v@),
            None => header_lookup(headers_view(headers@), name@) is None,
        },
{
    let ghost full = headers_view(headers@);
    let n = headers.len();
    proof {
        assert(full.subrange(0, n as int) =~= full);
    }
    let mut i: usize = 0;
    while i < n
        invariant
            n == headers@.len(),
            full == headers_view(headers@),
            full.len() == n,
            0 <= i <= n,
            header_lookup(full, name@) == header_lookup(
                full.subrange(i as int, n as int),
                name@,
            ),
        decreases n - i,
    {
        let entry = &headers[i];
        if header_name_eq(entry.0.as_str(), name) {
            proof {
                assert(full.subrange(i as int, n as int)[0] == full[i as int]);
            }
            return Some(&entry.1);
        }
        proof {
            assert(full.subrange(i as int, n as int)[0] == full[i as int]);
            assert(full.subrange(i as int, n as int).subrange(
                1,
                full.subrange(i as int, n as int).len() as int,
            ) =~= full.subrange(i as int + 1, n as int));
        }
        i += 1;
    }
    proof {
        assert(full.subrange(n as int, n as int) =~= Seq::<(Seq<char>, Seq<char>)>::empty());
    }
    None
}

} // verus!
