//! Hexadecimal color components.
//!
//! A terminal reports each channel of a color as a short hexadecimal number,
//! most often with four digits (16 bits per channel) and sometimes with two
//! (8 bits per channel). This module decodes one such component to 8 bits.

use vstd::prelude::*;
use vstd::string::*;

verus! {

/// The largest number that a component may spell.
pub const COMPONENT_MAX: u32 = 0xffff;

/// The value of the hexadecimal digit `b`, or `None` if `b` is no such digit.
/// Both cases of the letters `a` to `f` are digits.
pub open spec fn hex_digit(b: u8) -> Option<u8> {
    if 0x30 <= b <= 0x39 {
        Some((b - 0x30) as u8)
    } else if 0x61 <= b <= 0x66 {
        Some((b - 0x61 + 10) as u8)
    } else if 0x41 <= b <= 0x46 {
        Some((b - 0x41 + 10) as u8)
    } else {
        None
    }
}

/// Every byte of `s` is a hexadecimal digit.
pub open spec fn all_hex(s: Seq<u8>) -> bool {
    forall|i: int| 0 <= i < s.len() ==> (#[trigger] hex_digit(s[i])) is Some
}

/// The number that the digits `s` spell, most significant digit first.
pub open spec fn hex_value(s: Seq<u8>) -> nat
    decreases s.len(),
{
    if s.len() == 0 {
        0
    } else {
        hex_value(s.drop_last()) * 16 + hex_digit(s.last()).unwrap() as nat
    }
}

/// The 8-bit value of the component `s`.
///
/// A component is one hexadecimal digit or more, with nothing before, between
/// or after the digits, and spells a number of at most 16 bits; anything else
/// has no value. A component of at most two digits is an 8-bit value and is
/// taken as it is. A longer one is a 16-bit value, of which the high byte is
/// kept.
pub open spec fn component_value(s: Seq<u8>) -> Option<u8> {
    if s.len() == 0 || !all_hex(s) || hex_value(s) > COMPONENT_MAX {
        None
    } else if s.len() <= 2 {
        Some(hex_value(s) as u8)
    } else {
        Some((hex_value(s) / 256) as u8)
    }
}

/// A number never gets smaller when more digits follow it.
pub proof fn lemma_hex_value_grows(s: Seq<u8>, k: int)
    requires
        0 <= k <= s.len(),
    ensures
        hex_value(s.take(k)) <= hex_value(s),
    decreases s.len(),
{
    if k == s.len() {
        assert(s.take(k) =~= s);
    } else {
        lemma_hex_value_grows(s.drop_last(), k);
        assert(s.drop_last().take(k) =~= s.take(k));
    }
}

/// The `n`-th power of sixteen.
pub open spec fn pow16(n: nat) -> nat
    decreases n,
{
    if n == 0 {
        1
    } else {
        16 * pow16((n - 1) as nat)
    }
}

/// As many digits as `s` has spell a number below that power of sixteen.
pub proof fn lemma_hex_value_bound(s: Seq<u8>)
    requires
        all_hex(s),
    ensures
        hex_value(s) < pow16(s.len()),
    decreases s.len(),
{
    if s.len() > 0 {
        let head = s.drop_last();
        assert forall|i: int| 0 <= i < head.len() implies (#[trigger] hex_digit(head[i]))
            is Some by {
            assert(head[i] == s[i]);
        }
        lemma_hex_value_bound(head);
        assert(hex_digit(s.last()) is Some);
    }
}

/// Two digits spell a number of 8 bits, four digits one of 16 bits.
pub proof fn lemma_digits_fit(s: Seq<u8>)
    requires
        all_hex(s),
        s.len() <= 4,
    ensures
        s.len() <= 2 ==> hex_value(s) < 0x100,
        hex_value(s) < 0x10000,
{
    lemma_hex_value_bound(s);
    reveal_with_fuel(pow16, 5);
}

/// The high byte of a number of four digits is the number that its first two
/// digits spell.
pub proof fn lemma_high_byte_is_first_two_digits(s: Seq<u8>)
    requires
        all_hex(s),
        s.len() == 4,
    ensures
        hex_value(s) / 256 == hex_value(s.take(2)),
{
    let three = s.drop_last();
    assert(three.drop_last() =~= s.take(2));
    assert(hex_digit(s[3]) is Some);
    assert(hex_digit(s[2]) is Some);
    assert(three.last() == s[2]);
    assert(hex_value(s) == hex_value(three) * 16 + hex_digit(s[3]).unwrap());
    assert(hex_value(three) == hex_value(s.take(2)) * 16 + hex_digit(s[2]).unwrap());
}

/// Decodes one hexadecimal digit.
pub fn hex_digit_value(b: u8) -> (digit: Option<u8>)
    ensures
        digit == hex_digit(b),
        digit matches Some(d) ==> d < 16,
{
    if 0x30 <= b && b <= 0x39 {
        Some(b - 0x30)
    } else if 0x61 <= b && b <= 0x66 {
        Some(b - 0x61 + 10)
    } else if 0x41 <= b && b <= 0x46 {
        Some(b - 0x41 + 10)
    } else {
        None
    }
}

/// Decodes the component held in the bytes `s`.
pub fn parse_hex_bytes(s: &[u8]) -> (value: Option<u8>)
    ensures
        value == component_value(s@),
{
    let n = s.len();
    if n == 0 {
        return None;
    }
    let mut acc: u32 = 0;
    let mut i: usize = 0;
    while i < n
        invariant
            0 <= i <= n,
            n == s@.len(),
            all_hex(s@.take(i as int)),
            acc == hex_value(s@.take(i as int)),
            acc <= COMPONENT_MAX,
        decreases n - i,
    {
        let ghost seen = s@.take(i as int);
        let ghost more = s@.take(i + 1);
        assert(more.drop_last() =~= seen);
        assert(more.last() == s@[i as int]);
        match hex_digit_value(s[i]) {
            None => {
                return None;
            },
            Some(d) => {
                acc = acc * 16 + d as u32;
                assert(acc == hex_value(more));
                if acc > COMPONENT_MAX {
                    proof {
                        lemma_hex_value_grows(s@, i + 1);
                    }
                    return None;
                }
                assert forall|j: int| 0 <= j < more.len() implies (#[trigger] hex_digit(
                    more[j],
                )) is Some by {
                    if j < seen.len() {
                        assert(more[j] == seen[j]);
                    }
                }
            },
        }
        i += 1;
    }
    assert(s@.take(i as int) =~= s@);
    if n <= 2 {
        proof {
            lemma_digits_fit(s@);
        }
        Some(acc as u8)
    } else {
        Some((acc / 256) as u8)
    }
}

/// Parses a hexadecimal color component, in its two-digit or its four-digit
/// form, to 8 bits.
pub fn parse_hex_component(s: &str) -> (value: Option<u8>)
    ensures
        value == component_value(s.spec_bytes()),
{
    parse_hex_bytes(s.as_bytes())
}

} // verus!
