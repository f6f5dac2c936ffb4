//! What holds of the parsing of replies.
//!
//! The statements here are about [`response_color`], which
//! [`crate::response::parse_osc_color_response`] computes: which replies
//! report a color, which color, and which replies report none.

use crate::hex::{all_hex, component_value, hex_digit, hex_value, lemma_digits_fit};
use crate::osc::{decimal, BACKSLASH, BEL, ESC};
use crate::response::{
    find_marker, index_from, lemma_find_marker, lemma_find_marker_is, lemma_index_from,
    lemma_index_from_is, marker, marker_at, response_color, response_payload, triple_color, SLASH,
};
use vstd::prelude::*;
use vstd::utf8::{pop_first_scalar, valid_first_scalar, valid_utf8, valid_utf8_concat};

verus! {

/// No byte of `s` is `b`.
pub open spec fn free_of(s: Seq<u8>, b: u8) -> bool {
    forall|i: int| 0 <= i < s.len() ==> s[i] != b
}

/// Every byte of `s` is an ASCII character.
pub open spec fn ascii(s: Seq<u8>) -> bool {
    forall|i: int| 0 <= i < s.len() ==> s[i] < 0x80
}

/// The marker stands nowhere in `s`.
pub open spec fn no_marker(s: Seq<u8>) -> bool {
    forall|i: int| !marker_at(s, i)
}

/// How many slashes `p` holds. Split at its slashes, `p` falls into one part
/// more.
pub open spec fn slash_count(p: Seq<u8>) -> nat
    decreases p.len(),
{
    if p.len() == 0 {
        0
    } else {
        slash_count(p.drop_last()) + if p.last() == SLASH {
            1nat
        } else {
            0nat
        }
    }
}

/// The three components `r`, `g` and `b` with a slash between them.
pub open spec fn triple(r: Seq<u8>, g: Seq<u8>, b: Seq<u8>) -> Seq<u8> {
    r + seq![SLASH] + g + seq![SLASH] + b
}

/// The bytes of a reply: a prefix, the marker, three components with a slash
/// between them, and a rest.
pub open spec fn reply(prefix: Seq<u8>, r: Seq<u8>, g: Seq<u8>, b: Seq<u8>, rest: Seq<u8>) -> Seq<
    u8,
> {
    prefix + marker() + triple(r, g, b) + rest
}

/// The rest of a reply ends the text of the color: it is empty, or it begins
/// with the escape byte.
pub open spec fn ends_color(rest: Seq<u8>) -> bool {
    rest.len() == 0 || rest[0] == ESC
}

/// The bytes `bytes` are a reply in its regular shape: valid UTF-8 that is
/// made of a prefix without a marker, the marker, three components that each
/// have a value, and a rest that ends the text of the color.
pub open spec fn regular_reply(
    bytes: Seq<u8>,
    prefix: Seq<u8>,
    r: Seq<u8>,
    g: Seq<u8>,
    b: Seq<u8>,
    rest: Seq<u8>,
) -> bool {
    &&& bytes == reply(prefix, r, g, b, rest)
    &&& valid_utf8(bytes)
    &&& no_marker(prefix)
    &&& component_value(r) is Some
    &&& component_value(g) is Some
    &&& component_value(b) is Some
    &&& ends_color(rest)
}

/// A component that has a value holds neither a slash nor an escape byte,
/// and nothing but ASCII characters.
pub proof fn lemma_component_is_plain(s: Seq<u8>)
    requires
        component_value(s) is Some,
    ensures
        free_of(s, SLASH),
        free_of(s, ESC),
        ascii(s),
{
    assert forall|i: int| 0 <= i < s.len() implies s[i] != SLASH && s[i] != ESC && s[i] < 0x80 by {
        assert(hex_digit(s[i]) is Some);
    }
}

/// A component with a byte that is no hexadecimal digit has no value.
pub proof fn lemma_non_hex_has_no_value(s: Seq<u8>, i: int)
    requires
        0 <= i < s.len(),
        hex_digit(s[i]) is None,
    ensures
        component_value(s) is None,
{
}

/// Three components without a slash, joined by slashes, spell a color
/// exactly when each of them has a value.
pub proof fn lemma_triple_color(r: Seq<u8>, g: Seq<u8>, b: Seq<u8>)
    requires
        free_of(r, SLASH),
        free_of(g, SLASH),
        free_of(b, SLASH),
    ensures
        triple_color(triple(r, g, b)) == match (
            component_value(r),
            component_value(g),
            component_value(b),
        ) {
            (Some(red), Some(green), Some(blue)) => Some((red, green, blue)),
            _ => None,
        },
{
    let p = triple(r, g, b);
    let i = r.len() as int;
    let j = i + 1 + g.len();
    lemma_index_from_is(p, SLASH, 0, i);
    lemma_index_from_is(p, SLASH, i + 1, j);
    lemma_index_from_is(p, SLASH, j + 1, p.len() as int);
    assert(p.take(i) =~= r);
    assert(p.subrange(i + 1, j) =~= g);
    assert(p.skip(j + 1) =~= b);
}

/// A text that spells a color is three components without a slash, joined
/// by slashes, each of which has a value.
pub proof fn lemma_color_has_three_parts(p: Seq<u8>) -> (parts: (Seq<u8>, Seq<u8>, Seq<u8>))
    requires
        triple_color(p) is Some,
    ensures
        p == triple(parts.0, parts.1, parts.2),
        free_of(parts.0, SLASH) && free_of(parts.1, SLASH) && free_of(parts.2, SLASH),
        triple_color(p) == Some(
            (
                component_value(parts.0).unwrap(),
                component_value(parts.1).unwrap(),
                component_value(parts.2).unwrap(),
            ),
        ),
        component_value(parts.0) is Some,
        component_value(parts.1) is Some,
        component_value(parts.2) is Some,
{
    let i = index_from(p, SLASH, 0);
    let j = index_from(p, SLASH, i + 1);
    lemma_index_from(p, SLASH, 0);
    lemma_index_from(p, SLASH, i + 1);
    lemma_index_from(p, SLASH, j + 1);
    let r = p.take(i);
    let g = p.subrange(i + 1, j);
    let b = p.skip(j + 1);
    assert(p =~= triple(r, g, b));
    (r, g, b)
}

/// Slashes are counted part by part.
pub proof fn lemma_slash_count_concat(a: Seq<u8>, b: Seq<u8>)
    ensures
        slash_count(a + b) == slash_count(a) + slash_count(b),
    decreases b.len(),
{
    if b.len() == 0 {
        assert(a + b =~= a);
    } else {
        lemma_slash_count_concat(a, b.drop_last());
        assert((a + b).drop_last() =~= a + b.drop_last());
    }
}

/// Bytes without a slash count none.
pub proof fn lemma_slash_count_free(s: Seq<u8>)
    requires
        free_of(s, SLASH),
    ensures
        slash_count(s) == 0,
    decreases s.len(),
{
    if s.len() > 0 {
        lemma_slash_count_free(s.drop_last());
    }
}

/// Only a text of exactly three parts spells a color: with fewer or more
/// than two slashes none is reported.
pub proof fn lemma_absent_unless_three_parts(p: Seq<u8>)
    requires
        slash_count(p) != 2,
    ensures
        triple_color(p) is None,
{
    if triple_color(p) is Some {
        let (r, g, b) = lemma_color_has_three_parts(p);
        lemma_slash_count_free(r);
        lemma_slash_count_free(g);
        lemma_slash_count_free(b);
        lemma_slash_count_concat(r, seq![SLASH]);
        lemma_slash_count_concat(r + seq![SLASH], g);
        lemma_slash_count_concat(r + seq![SLASH] + g, seq![SLASH]);
        lemma_slash_count_concat(r + seq![SLASH] + g + seq![SLASH], b);
        assert(slash_count(seq![SLASH]) == 1) by {
            reveal_with_fuel(slash_count, 2);
        }
    }
}

/// Bytes that are not valid UTF-8 report no color.
pub proof fn lemma_absent_unless_text(bytes: Seq<u8>)
    requires
        !valid_utf8(bytes),
    ensures
        response_color(bytes) is None,
{
}

/// A reply without the marker `rgb:` reports no color.
pub proof fn lemma_absent_without_marker(bytes: Seq<u8>)
    requires
        no_marker(bytes),
    ensures
        response_color(bytes) is None,
{
    lemma_find_marker(bytes, 0);
    if find_marker(bytes, 0) is Some {
        assert(marker_at(bytes, find_marker(bytes, 0).unwrap()));
    }
}

/// A reply whose color text has other than three parts reports no color.
pub proof fn lemma_absent_on_wrong_part_count(bytes: Seq<u8>)
    requires
        response_payload(bytes) matches Some(p) && slash_count(p) != 2,
    ensures
        response_color(bytes) is None,
{
    lemma_absent_unless_three_parts(response_payload(bytes).unwrap());
}

/// The color text of a reply is its three components, when they hold no
/// escape byte, no marker precedes them and the rest ends the text.
pub proof fn lemma_reply_payload(
    prefix: Seq<u8>,
    r: Seq<u8>,
    g: Seq<u8>,
    b: Seq<u8>,
    rest: Seq<u8>,
)
    requires
        no_marker(prefix),
        free_of(r, ESC),
        free_of(g, ESC),
        free_of(b, ESC),
        ends_color(rest),
    ensures
        response_payload(reply(prefix, r, g, b, rest)) == Some(triple(r, g, b)),
{
    let bytes = reply(prefix, r, g, b, rest);
    let at = prefix.len() as int;
    let p = triple(r, g, b);
    assert(marker_at(bytes, at));
    assert forall|j: int| 0 <= j < at implies !marker_at(bytes, j) by {
        if marker_at(bytes, j) {
            if j + 4 <= at {
                assert(marker_at(prefix, j));
            }
        }
    }
    lemma_find_marker_is(bytes, 0, at);
    let after = bytes.skip(at + 4);
    assert(after =~= p + rest);
    lemma_index_from_is(after, ESC, 0, p.len() as int);
    assert(after.take(p.len() as int) =~= p);
}

/// A reply with a component that has no value reports no color, whatever
/// its other components are.
pub proof fn lemma_absent_on_bad_component(
    prefix: Seq<u8>,
    r: Seq<u8>,
    g: Seq<u8>,
    b: Seq<u8>,
    rest: Seq<u8>,
)
    requires
        no_marker(prefix),
        free_of(r, SLASH) && free_of(g, SLASH) && free_of(b, SLASH),
        free_of(r, ESC) && free_of(g, ESC) && free_of(b, ESC),
        ends_color(rest),
        component_value(r) is None || component_value(g) is None || component_value(b) is None,
    ensures
        response_color(reply(prefix, r, g, b, rest)) is None,
{
    lemma_reply_payload(prefix, r, g, b, rest);
    lemma_triple_color(r, g, b);
}

/// A reply in its regular shape reports the values of its three components.
/// This holds for every such reply: whatever precedes the marker, as long as
/// it holds no marker itself, and whatever follows the color, as long as it
/// begins with the escape byte or is empty.
pub proof fn lemma_regular_reply(
    bytes: Seq<u8>,
    prefix: Seq<u8>,
    r: Seq<u8>,
    g: Seq<u8>,
    b: Seq<u8>,
    rest: Seq<u8>,
)
    requires
        regular_reply(bytes, prefix, r, g, b, rest),
    ensures
        response_color(bytes) == Some(
            (
                component_value(r).unwrap(),
                component_value(g).unwrap(),
                component_value(b).unwrap(),
            ),
        ),
{
    lemma_component_is_plain(r);
    lemma_component_is_plain(g);
    lemma_component_is_plain(b);
    lemma_reply_payload(prefix, r, g, b, rest);
    lemma_triple_color(r, g, b);
}

/// Bytes with a marker fall into what precedes the first marker, which holds
/// no marker, the marker, the text of the color, which holds no escape byte,
/// and a rest that ends that text.
pub proof fn lemma_payload_parts(bytes: Seq<u8>) -> (parts: (Seq<u8>, Seq<u8>, Seq<u8>))
    requires
        response_payload(bytes) is Some,
    ensures
        bytes == parts.0 + marker() + parts.1 + parts.2,
        no_marker(parts.0),
        response_payload(bytes) == Some(parts.1),
        ends_color(parts.2),
{
    lemma_find_marker(bytes, 0);
    let at = find_marker(bytes, 0).unwrap();
    let prefix = bytes.take(at);
    let after = bytes.skip(at + 4);
    lemma_index_from(after, ESC, 0);
    let end = index_from(after, ESC, 0);
    let p = after.take(end);
    let rest = after.skip(end);
    assert(no_marker(prefix)) by {
        assert forall|j: int| !marker_at(prefix, j) by {
            if marker_at(prefix, j) {
                assert(marker_at(bytes, j));
            }
        }
    }
    assert(bytes.subrange(at, at + 4) =~= marker());
    assert(after =~= p + rest);
    assert(bytes =~= prefix + bytes.subrange(at, at + 4) + after);
    assert(prefix + marker() + (p + rest) =~= prefix + marker() + p + rest);
    (prefix, p, rest)
}

/// Only a reply in its regular shape reports a color. Whenever a color is
/// reported, the bytes are valid UTF-8 and fall into a prefix without a
/// marker, the marker, three components and a rest that ends the text of the
/// color; the color is made of the values of the three components. Every
/// other sequence of bytes reports none.
pub proof fn lemma_color_comes_from_regular_reply(bytes: Seq<u8>) -> (parts: (
    Seq<u8>,
    Seq<u8>,
    Seq<u8>,
    Seq<u8>,
    Seq<u8>,
))
    requires
        response_color(bytes) is Some,
    ensures
        regular_reply(bytes, parts.0, parts.1, parts.2, parts.3, parts.4),
        response_color(bytes) == Some(
            (
                component_value(parts.1).unwrap(),
                component_value(parts.2).unwrap(),
                component_value(parts.3).unwrap(),
            ),
        ),
{
    let (prefix, p, rest) = lemma_payload_parts(bytes);
    let (r, g, b) = lemma_color_has_three_parts(p);
    (prefix, r, g, b, rest)
}

/// Bytes that are all ASCII characters are valid UTF-8.
pub proof fn lemma_ascii_is_valid_utf8(s: Seq<u8>)
    requires
        ascii(s),
    ensures
        valid_utf8(s),
    decreases s.len(),
{
    if s.len() != 0 {
        let first = s[0];
        assert(first & 0x7f == first) by (bit_vector)
            requires
                first < 0x80,
        ;
        assert(valid_first_scalar(s));
        let tail = pop_first_scalar(s);
        assert(tail =~= s.skip(1));
        lemma_ascii_is_valid_utf8(tail);
    }
}

/// A reply is valid UTF-8 when its prefix and its rest are, and its
/// components have values.
pub proof fn lemma_reply_is_text(
    prefix: Seq<u8>,
    r: Seq<u8>,
    g: Seq<u8>,
    b: Seq<u8>,
    rest: Seq<u8>,
)
    requires
        valid_utf8(prefix),
        valid_utf8(rest),
        component_value(r) is Some,
        component_value(g) is Some,
        component_value(b) is Some,
    ensures
        valid_utf8(reply(prefix, r, g, b, rest)),
{
    lemma_component_is_plain(r);
    lemma_component_is_plain(g);
    lemma_component_is_plain(b);
    let middle = marker() + triple(r, g, b);
    assert(ascii(middle));
    lemma_ascii_is_valid_utf8(middle);
    valid_utf8_concat(prefix, middle);
    valid_utf8_concat(prefix + middle, rest);
    assert(reply(prefix, r, g, b, rest) =~= prefix + middle + rest);
}

/// A reply with 16 bits per channel, `rgb:HHHH/HHHH/HHHH`, reports the high
/// byte of each channel.
pub proof fn lemma_sixteen_bit_reply(
    prefix: Seq<u8>,
    r: Seq<u8>,
    g: Seq<u8>,
    b: Seq<u8>,
    rest: Seq<u8>,
)
    requires
        valid_utf8(prefix) && no_marker(prefix),
        r.len() == 4 && all_hex(r),
        g.len() == 4 && all_hex(g),
        b.len() == 4 && all_hex(b),
        valid_utf8(rest) && ends_color(rest),
    ensures
        hex_value(r) < 0x10000 && hex_value(g) < 0x10000 && hex_value(b) < 0x10000,
        response_color(reply(prefix, r, g, b, rest)) == Some(
            ((hex_value(r) / 256) as u8, (hex_value(g) / 256) as u8, (hex_value(b) / 256) as u8),
        ),
{
    lemma_digits_fit(r);
    lemma_digits_fit(g);
    lemma_digits_fit(b);
    lemma_reply_is_text(prefix, r, g, b, rest);
    lemma_regular_reply(reply(prefix, r, g, b, rest), prefix, r, g, b, rest);
}

/// A reply with 8 bits per channel, `rgb:HH/HH/HH`, reports exactly the
/// bytes that its digits spell.
pub proof fn lemma_eight_bit_reply(
    prefix: Seq<u8>,
    r: Seq<u8>,
    g: Seq<u8>,
    b: Seq<u8>,
    rest: Seq<u8>,
)
    requires
        valid_utf8(prefix) && no_marker(prefix),
        r.len() == 2 && all_hex(r),
        g.len() == 2 && all_hex(g),
        b.len() == 2 && all_hex(b),
        valid_utf8(rest) && ends_color(rest),
    ensures
        hex_value(r) < 0x100 && hex_value(g) < 0x100 && hex_value(b) < 0x100,
        response_color(reply(prefix, r, g, b, rest)) == Some(
            (hex_value(r) as u8, hex_value(g) as u8, hex_value(b) as u8),
        ),
{
    lemma_digits_fit(r);
    lemma_digits_fit(g);
    lemma_digits_fit(b);
    lemma_reply_is_text(prefix, r, g, b, rest);
    lemma_regular_reply(reply(prefix, r, g, b, rest), prefix, r, g, b, rest);
}

/// What precedes the color in the reply to the query with the OSC code
/// `code`: `ESC ] code ;`, with the code in decimal.
pub open spec fn reply_head(code: u8) -> Seq<u8> {
    seq![ESC, 0x5du8] + decimal(code as nat) + seq![0x3bu8]
}

/// The string terminator `ESC \`.
pub open spec fn string_terminator() -> Seq<u8> {
    seq![ESC, BACKSLASH]
}

/// The reply `ESC ] code ; rgb:r/g/b ESC \`.
pub open spec fn osc_reply(code: u8, r: Seq<u8>, g: Seq<u8>, b: Seq<u8>) -> Seq<u8> {
    reply(reply_head(code), r, g, b, string_terminator())
}

/// A number in decimal is made of the digits `0` to `9`.
pub proof fn lemma_decimal_is_digits(n: nat)
    ensures
        decimal(n).len() >= 1,
        forall|i: int| 0 <= i < decimal(n).len() ==> 0x30 <= #[trigger] decimal(n)[i] <= 0x39,
    decreases n,
{
    if n >= 10 {
        lemma_decimal_is_digits(n / 10);
    }
}

/// What precedes the color in a reply is ASCII text without a marker.
pub proof fn lemma_reply_head_is_plain(code: u8)
    ensures
        ascii(reply_head(code)),
        no_marker(reply_head(code)),
{
    let head = reply_head(code);
    let digits = decimal(code as nat);
    lemma_decimal_is_digits(code as nat);
    assert forall|i: int| 0 <= i < head.len() implies head[i] < 0x80 && head[i] != 0x72u8 by {
        if 2 <= i < 2 + digits.len() {
            assert(head[i] == digits[i - 2]);
        }
    }
}

/// The reply `ESC ] code ; rgb:r/g/b ESC \` reports the values of its three
/// components, for every code.
pub proof fn lemma_osc_reply(code: u8, r: Seq<u8>, g: Seq<u8>, b: Seq<u8>)
    requires
        component_value(r) is Some,
        component_value(g) is Some,
        component_value(b) is Some,
    ensures
        response_color(osc_reply(code, r, g, b)) == Some(
            (
                component_value(r).unwrap(),
                component_value(g).unwrap(),
                component_value(b).unwrap(),
            ),
        ),
{
    lemma_reply_head_is_plain(code);
    lemma_ascii_is_valid_utf8(reply_head(code));
    lemma_ascii_is_valid_utf8(string_terminator());
    lemma_reply_is_text(reply_head(code), r, g, b, string_terminator());
    lemma_regular_reply(osc_reply(code, r, g, b), reply_head(code), r, g, b, string_terminator());
}

/// The reply `ESC ] code ; rgb:HHHH/HHHH/HHHH ESC \` reports the high byte of
/// each channel, for every code and all digits.
pub proof fn lemma_sixteen_bit_osc_reply(code: u8, r: Seq<u8>, g: Seq<u8>, b: Seq<u8>)
    requires
        r.len() == 4 && all_hex(r),
        g.len() == 4 && all_hex(g),
        b.len() == 4 && all_hex(b),
    ensures
        hex_value(r) < 0x10000 && hex_value(g) < 0x10000 && hex_value(b) < 0x10000,
        response_color(osc_reply(code, r, g, b)) == Some(
            ((hex_value(r) / 256) as u8, (hex_value(g) / 256) as u8, (hex_value(b) / 256) as u8),
        ),
{
    lemma_reply_head_is_plain(code);
    lemma_ascii_is_valid_utf8(reply_head(code));
    lemma_ascii_is_valid_utf8(string_terminator());
    lemma_sixteen_bit_reply(reply_head(code), r, g, b, string_terminator());
}

/// The reply `ESC ] code ; rgb:HH/HH/HH ESC \` reports exactly the bytes that
/// its digits spell, for every code and all digits.
pub proof fn lemma_eight_bit_osc_reply(code: u8, r: Seq<u8>, g: Seq<u8>, b: Seq<u8>)
    requires
        r.len() == 2 && all_hex(r),
        g.len() == 2 && all_hex(g),
        b.len() == 2 && all_hex(b),
    ensures
        hex_value(r) < 0x100 && hex_value(g) < 0x100 && hex_value(b) < 0x100,
        response_color(osc_reply(code, r, g, b)) == Some(
            (hex_value(r) as u8, hex_value(g) as u8, hex_value(b) as u8),
        ),
{
    lemma_reply_head_is_plain(code);
    lemma_ascii_is_valid_utf8(reply_head(code));
    lemma_ascii_is_valid_utf8(string_terminator());
    lemma_eight_bit_reply(reply_head(code), r, g, b, string_terminator());
}

/// A reply that ends with BEL, with no escape byte after the marker, reports
/// no color, whatever its components are.
pub proof fn lemma_bel_hides_color(prefix: Seq<u8>, r: Seq<u8>, g: Seq<u8>, b: Seq<u8>)
    requires
        no_marker(prefix),
        component_value(r) is Some,
        component_value(g) is Some,
        component_value(b) is Some,
    ensures
        response_color(prefix + marker() + triple(r, g, b) + seq![BEL]) is None,
{
    let last = b.push(BEL);
    let bytes = prefix + marker() + triple(r, g, b) + seq![BEL];
    lemma_component_is_plain(r);
    lemma_component_is_plain(g);
    lemma_component_is_plain(b);
    assert(free_of(last, SLASH) && free_of(last, ESC));
    assert(bytes =~= reply(prefix, r, g, last, Seq::empty()));
    lemma_non_hex_has_no_value(last, b.len() as int);
    lemma_absent_on_bad_component(prefix, r, g, last, Seq::empty());
}

} // verus!
