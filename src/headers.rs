//! Response headers as plain values: each entry is a header name and the raw bytes of its value,
//! in the order in which the response carried them.
use vstd::prelude::*;

verus! {

/// The ASCII upper-case letter `c` and the lower-case letter `d` are the same letter.
pub open spec fn upper_of(c: char, d: char) -> bool {
    'A' <= c <= 'Z' && (c as u32) + 32 == (d as u32)
}

/// Two characters equal up to ASCII case.
pub open spec fn char_eq_ignore_case(c: char, d: char) -> bool {
    c == d || upper_of(c, d) || upper_of(d, c)
}

/// Two header names equal up to ASCII case, as header names compare.
pub open spec fn names_match(a: Seq<char>, b: Seq<char>) -> bool {
    a.len() == b.len() && forall|i: int| 0 <= i < a.len() ==> char_eq_ignore_case(#[trigger] a[i], b[i])
}

/// The value of the first entry whose name matches `name`.
pub open spec fn header_lookup(h: Seq<(String, Vec<u8>)>, name: Seq<char>) -> Option<Seq<u8>>
    decreases h.len(),
{
    if h.len() == 0 {
        None
    } else if names_match(h[0].0@, name) {
        Some(h[0].1@)
    } else {
        header_lookup(h.drop_first(), name)
    }
}

/// A byte that a header value may hold as text: visible ASCII or a tab.
pub open spec fn is_visible_ascii(b: u8) -> bool {
    32 <= b < 127 || b == 9
}

pub open spec fn all_visible(v: Seq<u8>) -> bool {
    forall|i: int| 0 <= i < v.len() ==> is_visible_ascii(#[trigger] v[i])
}

/// The characters of ASCII bytes, one for each byte.
pub open spec fn ascii_chars(v: Seq<u8>) -> Seq<char> {
    v.map_values(|b: u8| b as char)
}

fn char_eq_ignore_case_exec(c: char, d: char) -> (r: bool)
    ensures
        r == char_eq_ignore_case(c, d),
{
    let cu = c as u32;
    let du = d as u32;
    c == d || ('A' <= c && c <= 'Z' && cu + 32 == du) || ('A' <= d && d <= 'Z' && du + 32 == cu)
}

/// Whether two header names are equal up to ASCII case.
pub fn header_names_match(a: &str, b: &str) -> (r: bool)
    ensures
        r == names_match(a@, b@),
{
    let n = a.unicode_len();
    if n != b.unicode_len() {
        return false;
    }
    let mut i: usize = 0;
    while i < n
        invariant
            n == a@.len() == b@.len(),
            i <= n,
            forall|j: int| 0 <= j < i ==> char_eq_ignore_case(#[trigger] a@[j], b@[j]),
        decreases n - i,
    {
        if !char_eq_ignore_case_exec(a.get_char(i), b.get_char(i)) {
            return false;
        }
        i = i + 1;
    }
    true
}

/// The index of the first entry whose name matches `name`, if any.
pub fn find_header(h: &Vec<(String, Vec<u8>)>, name: &str) -> (r: Option<usize>)
    ensures
        match r {
            Some(i) => i < h@.len() && header_lookup(h@, name@) == Some(h@[i as int].1@),
            None => header_lookup(h@, name@) is None,
        },
{
    let mut i: usize = 0;
    assert(h@.subrange(0, h@.len() as int) =~= h@);
    while i < h.len()
        invariant
            i <= h@.len(),
            header_lookup(h@, name@) == header_lookup(h@.subrange(i as int, h@.len() as int), name@),
        decreases h.len() - i,
    {
        let ghost rest = h@.subrange(i as int, h@.len() as int);
        assert(rest.drop_first() =~= h@.subrange(i + 1, h@.len() as int));
        assert(rest[0] == h@[i as int]);
        if header_names_match(h[i].0.as_str(), name) {
            return Some(i);
        }
        i = i + 1;
    }
    None
}

/// Whether every byte is visible ASCII or a tab.
pub fn check_visible(v: &[u8]) -> (r: bool)
    ensures
        r == all_visible(v@),
{
    let mut i: usize = 0;
    while i < v.len()
        invariant
            i <= v@.len(),
            forall|j: int| 0 <= j < i ==> is_visible_ascii(#[trigger] v@[j]),
        decreases v.len() - i,
    {
        let b = v[i];
        if !((32 <= b && b < 127) || b == 9) {
            return false;
        }
        i = i + 1;
    }
    true
}

/// Relies on `String::from_utf8_lossy`: ASCII bytes are valid UTF-8, which it keeps as it is, one
/// character per byte.
#[verifier::external_body]
fn ascii_to_string(v: &[u8]) -> (r: String)
    requires
        forall|i: int| 0 <= i < v@.len() ==> v@[i] < 128,
    ensures
        r@ == ascii_chars(v@),
{
    String::from_utf8_lossy(v).into_owned()
}

/// The text of a header value of visible ASCII.
pub fn visible_to_string(v: &[u8]) -> (r: String)
    requires
        all_visible(v@),
    ensures
        r@ == ascii_chars(v@),
{
    assert forall|i: int| 0 <= i < v@.len() implies v@[i] < 128 by {
        assert(is_visible_ascii(v@[i]));
    }
    ascii_to_string(v)
}

} // verus!
