//! The bytes of the OSC color exchange.
//!
//! A query is `ESC ] code ; ? ESC \`, with the code in decimal: 10 asks for
//! the foreground, 11 for the background. A reply ends with the string
//! terminator `ESC \`, or with a single BEL.

use vstd::prelude::*;

verus! {

/// OSC code of the foreground color.
pub const FOREGROUND_CODE: u8 = 10;

/// OSC code of the background color.
pub const BACKGROUND_CODE: u8 = 11;

/// The escape byte, which begins a query and, with `\\` after it, ends a
/// reply.
pub const ESC: u8 = 0x1b;

/// The byte BEL, which alone ends a reply.
pub const BEL: u8 = 0x07;

/// The byte `\`, which ends a reply when it follows an escape byte.
pub const BACKSLASH: u8 = 0x5c;

/// The byte `0`, the first of the ten decimal digits.
pub const ZERO: u8 = 0x30;

/// The decimal digits of `n`, most significant first, without leading zeros.
pub open spec fn decimal(n: nat) -> Seq<u8>
    decreases n,
{
    if n < 10 {
        seq![(ZERO + n) as u8]
    } else {
        decimal(n / 10).push((ZERO + n % 10) as u8)
    }
}

/// The query for the color with the OSC code `code`.
pub open spec fn query_bytes(code: u8) -> Seq<u8> {
    seq![ESC, 0x5du8] + decimal(code as nat) + seq![0x3bu8, 0x3fu8, ESC, BACKSLASH]
}

/// A terminator ends in `buf` just before the index `end`: the byte there is
/// BEL, or it is `\` and follows an escape byte.
pub open spec fn terminator_at(buf: Seq<u8>, end: int) -> bool {
    &&& 1 <= end <= buf.len()
    &&& (buf[end - 1] == BEL || (end >= 2 && buf[end - 1] == BACKSLASH && buf[end - 2] == ESC))
}

/// The bytes `buf` end with a terminator.
pub open spec fn ends_with_terminator(buf: Seq<u8>) -> bool {
    terminator_at(buf, buf.len() as int)
}

/// No terminator ends anywhere in `buf`: a reader that stops at the first
/// terminator has not stopped yet.
pub open spec fn unterminated(buf: Seq<u8>) -> bool {
    forall|end: int| !#[trigger] terminator_at(buf, end)
}

/// Builds the query for the color with the OSC code `code`.
pub fn osc_query(code: u8) -> (query: Vec<u8>)
    ensures
        query@ == query_bytes(code),
{
    let mut query: Vec<u8> = Vec::with_capacity(8);
    query.push(ESC);
    query.push(0x5d);
    let ghost head = query@;
    assert(head == seq![ESC, 0x5du8]);
    if code >= 100 {
        query.push(ZERO + code / 100);
    }
    if code >= 10 {
        query.push(ZERO + (code / 10) % 10);
    }
    query.push(ZERO + code % 10);
    proof {
        let n = code as nat;
        reveal_with_fuel(decimal, 3);
        assert(query@ == head + decimal(n));
    }
    query.push(0x3b);
    query.push(0x3f);
    query.push(ESC);
    query.push(BACKSLASH);
    query
}

/// Says whether the bytes read so far end with a terminator.
pub fn is_terminated(buf: &[u8]) -> (terminated: bool)
    ensures
        terminated == ends_with_terminator(buf@),
{
    let n = buf.len();
    if n == 0 {
        return false;
    }
    let last = buf[n - 1];
    last == BEL || (last == BACKSLASH && n >= 2 && buf[n - 2] == ESC)
}

/// The two queries that the engine sends.
pub proof fn lemma_queries()
    ensures
        query_bytes(FOREGROUND_CODE) == seq![
            0x1bu8,
            0x5du8,
            0x31u8,
            0x30u8,
            0x3bu8,
            0x3fu8,
            0x1bu8,
            0x5cu8,
        ],
        query_bytes(BACKGROUND_CODE) == seq![
            0x1bu8,
            0x5du8,
            0x31u8,
            0x31u8,
            0x3bu8,
            0x3fu8,
            0x1bu8,
            0x5cu8,
        ],
{
    reveal_with_fuel(decimal, 3);
    assert(decimal(10) =~= seq![0x31u8, 0x30u8]);
    assert(decimal(11) =~= seq![0x31u8, 0x31u8]);
}

/// Appending the byte `b` to unterminated bytes gives bytes that are
/// unterminated again, unless they now end with a terminator.
pub proof fn lemma_unterminated_push(buf: Seq<u8>, b: u8)
    requires
        unterminated(buf),
        !ends_with_terminator(buf.push(b)),
    ensures
        unterminated(buf.push(b)),
{
    let more = buf.push(b);
    assert forall|end: int| !#[trigger] terminator_at(more, end) by {
        if end <= buf.len() {
            assert(!terminator_at(buf, end));
        }
    }
}

/// Unterminated bytes stay so when their last byte is taken away.
pub proof fn lemma_unterminated_drop_last(buf: Seq<u8>)
    requires
        buf.len() > 0,
        unterminated(buf),
    ensures
        unterminated(buf.drop_last()),
        !ends_with_terminator(buf),
{
    let head = buf.drop_last();
    assert forall|end: int| !#[trigger] terminator_at(head, end) by {
        assert(!terminator_at(buf, end));
    }
    assert(!terminator_at(buf, buf.len() as int));
}

} // verus!
