//! Replies to a color query.
//!
//! A terminal answers an OSC 10 or OSC 11 query with
//! `ESC ] code ; rgb:RRRR/GGGG/BBBB ESC \`, or with two digits per channel.
//! This module finds the color in the bytes that were read, whether or not
//! the reply is complete. The text of the color begins after the marker
//! `rgb:` and runs to the next escape byte, or to the end of the bytes where
//! none follows. So a reply that ends with BEL in place of `ESC \` reports no
//! color: the BEL is taken for part of the last component.

use crate::colors::Rgb;
use crate::hex::{component_value, parse_hex_bytes};
use crate::osc::ESC;
use crate::utf8::is_utf8;
use vstd::prelude::*;
use vstd::utf8::valid_utf8;

verus! {

/// The byte `/`, which separates the channels of a color.
pub const SLASH: u8 = 0x2f;

/// Length of the marker `rgb:`.
pub const MARKER_LEN: usize = 4;

/// The marker `rgb:`, which precedes the color in a reply.
pub open spec fn marker() -> Seq<u8> {
    seq![0x72u8, 0x67u8, 0x62u8, 0x3au8]
}

/// The marker `rgb:` stands in `s` at index `i`.
pub open spec fn marker_at(s: Seq<u8>, i: int) -> bool {
    &&& 0 <= i
    &&& i + 4 <= s.len()
    &&& s[i] == 0x72u8
    &&& s[i + 1] == 0x67u8
    &&& s[i + 2] == 0x62u8
    &&& s[i + 3] == 0x3au8
}

/// Index of the first marker in `s` that starts at `from` or later.
pub open spec fn find_marker(s: Seq<u8>, from: int) -> Option<int>
    decreases s.len() - from,
{
    if from < 0 || from + 4 > s.len() {
        None
    } else if marker_at(s, from) {
        Some(from)
    } else {
        find_marker(s, from + 1)
    }
}

/// Index of the first byte `b` in `s` at `from` or later, or the length of
/// `s` if there is none.
pub open spec fn index_from(s: Seq<u8>, b: u8, from: int) -> int
    decreases s.len() - from,
{
    if from < 0 || from >= s.len() {
        s.len() as int
    } else if s[from] == b {
        from
    } else {
        index_from(s, b, from + 1)
    }
}

/// The color that the text `p` spells: exactly three components, separated
/// by two slashes, each with a value. One component without a value leaves
/// the whole color unknown.
pub open spec fn triple_color(p: Seq<u8>) -> Option<Rgb> {
    let i = index_from(p, SLASH, 0);
    let j = index_from(p, SLASH, i + 1);
    let k = index_from(p, SLASH, j + 1);
    if i < p.len() && j < p.len() && k >= p.len() {
        match (
            component_value(p.take(i)),
            component_value(p.subrange(i + 1, j)),
            component_value(p.skip(j + 1)),
        ) {
            (Some(r), Some(g), Some(b)) => Some((r, g, b)),
            _ => None,
        }
    } else {
        None
    }
}

/// The text of the color in the reply `bytes`: what stands between the first
/// marker and the next escape byte, or the end of `bytes`. `None` if `bytes`
/// holds no marker.
pub open spec fn response_payload(bytes: Seq<u8>) -> Option<Seq<u8>> {
    match find_marker(bytes, 0) {
        None => None,
        Some(at) => {
            let rest = bytes.skip(at + 4);
            Some(rest.take(index_from(rest, ESC, 0)))
        },
    }
}

/// The color that the reply `bytes` reports. Bytes that are not valid UTF-8
/// report none.
pub open spec fn response_color(bytes: Seq<u8>) -> Option<Rgb> {
    if !valid_utf8(bytes) {
        None
    } else {
        match response_payload(bytes) {
            None => None,
            Some(p) => triple_color(p),
        }
    }
}

/// What `index_from` finds: a position at or after `from`, with no `b`
/// between `from` and it, which holds `b` unless it is the end.
pub proof fn lemma_index_from(s: Seq<u8>, b: u8, from: int)
    requires
        0 <= from <= s.len(),
    ensures
        from <= index_from(s, b, from) <= s.len(),
        index_from(s, b, from) < s.len() ==> s[index_from(s, b, from)] == b,
        forall|j: int| from <= j < index_from(s, b, from) ==> s[j] != b,
    decreases s.len() - from,
{
    if from < s.len() && s[from] != b {
        lemma_index_from(s, b, from + 1);
    }
}

/// A position with the three properties of `lemma_index_from` is the one
/// that `index_from` finds.
pub proof fn lemma_index_from_is(s: Seq<u8>, b: u8, from: int, at: int)
    requires
        0 <= from <= at <= s.len(),
        at < s.len() ==> s[at] == b,
        forall|j: int| from <= j < at ==> s[j] != b,
    ensures
        index_from(s, b, from) == at,
    decreases at - from,
{
    if from < at {
        lemma_index_from_is(s, b, from + 1, at);
    }
}

/// What `find_marker` finds: the first marker at or after `from`, or `None`
/// exactly when there is no marker there.
pub proof fn lemma_find_marker(s: Seq<u8>, from: int)
    requires
        0 <= from,
    ensures
        match find_marker(s, from) {
            Some(at) => from <= at && marker_at(s, at) && forall|j: int|
                from <= j < at ==> !marker_at(s, j),
            None => forall|j: int| from <= j ==> !marker_at(s, j),
        },
    decreases s.len() - from,
{
    if from + 4 <= s.len() && !marker_at(s, from) {
        lemma_find_marker(s, from + 1);
    }
}

/// A marker with no marker between `from` and it is the one that
/// `find_marker` finds.
pub proof fn lemma_find_marker_is(s: Seq<u8>, from: int, at: int)
    requires
        0 <= from <= at,
        marker_at(s, at),
        forall|j: int| from <= j < at ==> !marker_at(s, j),
    ensures
        find_marker(s, from) == Some(at),
    decreases at - from,
{
    if from < at {
        lemma_find_marker_is(s, from + 1, at);
    }
}

/// Finds the first byte `b` in `s` at `from` or later.
fn index_of(s: &[u8], b: u8, from: usize) -> (at: usize)
    ensures
        at == index_from(s@, b, from as int),
{
    let n = s.len();
    if from >= n {
        return n;
    }
    let mut i: usize = from;
    while i < n && s[i] != b
        invariant
            from <= i <= n,
            n == s@.len(),
            index_from(s@, b, from as int) == index_from(s@, b, i as int),
        decreases n - i,
    {
        i += 1;
    }
    i
}

/// Finds the first marker in `s`.
fn first_marker(s: &[u8]) -> (found: Option<usize>)
    ensures
        match found {
            Some(at) => find_marker(s@, 0) == Some(at as int),
            None => find_marker(s@, 0).is_none(),
        },
{
    let n = s.len();
    if n < MARKER_LEN {
        return None;
    }
    let last: usize = n - MARKER_LEN;
    let mut i: usize = 0;
    while i <= last
        invariant
            0 <= i <= last + 1,
            last + 4 == n,
            n == s@.len(),
            find_marker(s@, 0) == find_marker(s@, i as int),
        decreases last + 1 - i,
    {
        if s[i] == 0x72 && s[i + 1] == 0x67 && s[i + 2] == 0x62 && s[i + 3] == 0x3a {
            return Some(i);
        }
        i += 1;
    }
    None
}

/// Decodes the text of a color: three components between two slashes.
pub fn parse_triple(p: &[u8]) -> (color: Option<Rgb>)
    ensures
        color == triple_color(p@),
{
    let n = p.len();
    let i = index_of(p, SLASH, 0);
    if i >= n {
        return None;
    }
    let j = index_of(p, SLASH, i + 1);
    if j >= n {
        return None;
    }
    let k = index_of(p, SLASH, j + 1);
    if k < n {
        return None;
    }
    proof {
        lemma_index_from(p@, SLASH, 0);
        lemma_index_from(p@, SLASH, i + 1);
        assert(p@.subrange(0, i as int) =~= p@.take(i as int));
        assert(p@.subrange(j + 1, n as int) =~= p@.skip(j + 1));
    }
    let r = parse_hex_bytes(&p[0..i]);
    let g = parse_hex_bytes(&p[i + 1..j]);
    let b = parse_hex_bytes(&p[j + 1..n]);
    match (r, g, b) {
        (Some(r), Some(g), Some(b)) => Some((r, g, b)),
        _ => None,
    }
}

/// Parses the reply to a color query.
///
/// The reply is expected in the form `ESC ] code ; rgb:RRRR/GGGG/BBBB ESC \`
/// or `ESC ] code ; rgb:RR/GG/BB ESC \`. Whatever else the bytes hold, the
/// result is `None`: no input is refused.
pub fn parse_osc_color_response(response: &[u8]) -> (color: Option<Rgb>)
    ensures
        color == response_color(response@),
{
    if !is_utf8(response) {
        return None;
    }
    let at = match first_marker(response) {
        None => {
            return None;
        },
        Some(at) => at,
    };
    proof {
        lemma_find_marker(response@, 0);
    }
    let n = response.len();
    let rest = &response[at + MARKER_LEN..n];
    assert(rest@ =~= response@.skip(at + 4));
    let end = index_of(rest, ESC, 0);
    proof {
        lemma_index_from(rest@, ESC, 0);
    }
    let payload = &rest[0..end];
    assert(payload@ =~= rest@.take(end as int));
    parse_triple(payload)
}

} // verus!
