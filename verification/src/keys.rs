//! The keys under which a key-value store files the moderation history.

use vstd::prelude::*;
use crate::record::Timestamp;

verus! {

/// The count of nanoseconds as the 64 bits that hold it: itself where it is
/// not negative, and 2^64 more where it is.
pub open spec fn bits_of(nanos: i64) -> nat {
    if nanos >= 0 {
        nanos as nat
    } else {
        (nanos + 0x1_0000_0000_0000_0000) as nat
    }
}

/// Digit `place` of `value` in base 256, place 0 being the lowest.
pub open spec fn byte_at(value: nat, place: nat) -> nat
    decreases place,
{
    if place == 0 {
        value % 256
    } else {
        byte_at(value / 256, (place - 1) as nat)
    }
}

/// The eight lowest digits of `value` in base 256, the highest first.
pub open spec fn big_endian(value: nat) -> Seq<u8> {
    Seq::new(8, |i: int| byte_at(value, (7 - i) as nat) as u8)
}

/// The key under which the moderation history files an entry of the instant
/// `at`: the eight bytes of its nanosecond count, the highest first.
pub open spec fn history_key_of(at: Timestamp) -> Seq<u8> {
    big_endian(bits_of(at.nanos))
}

/// Whether `a` stands before `b` where keys are compared byte by byte, as a
/// key-value store compares them: at the first place where they differ, `a`
/// has the smaller byte.
pub open spec fn sorts_before(a: Seq<u8>, b: Seq<u8>) -> bool {
    exists|i: int|
        0 <= i < a.len() && i < b.len() && #[trigger] a.take(i) == b.take(i) && a[i] < b[i]
}

/// The key under which the moderation history files an entry of the instant
/// `at`.
pub fn history_key(at: Timestamp) -> (key: Vec<u8>)
    ensures
        key@ == history_key_of(at),
{
    let bits: u64 = if at.nanos >= 0 {
        at.nanos as u64
    } else {
        (at.nanos + i64::MAX + 1) as u64 + 0x8000_0000_0000_0000u64
    };
    let b7: u64 = bits % 256;
    let r6: u64 = bits / 256;
    let b6: u64 = r6 % 256;
    let r5: u64 = r6 / 256;
    let b5: u64 = r5 % 256;
    let r4: u64 = r5 / 256;
    let b4: u64 = r4 % 256;
    let r3: u64 = r4 / 256;
    let b3: u64 = r3 % 256;
    let r2: u64 = r3 / 256;
    let b2: u64 = r2 % 256;
    let r1: u64 = r2 / 256;
    let b1: u64 = r1 % 256;
    let r0: u64 = r1 / 256;
    let b0: u64 = r0 % 256;
    let mut key: Vec<u8> = Vec::with_capacity(8);
    key.push(b0 as u8);
    key.push(b1 as u8);
    key.push(b2 as u8);
    key.push(b3 as u8);
    key.push(b4 as u8);
    key.push(b5 as u8);
    key.push(b6 as u8);
    key.push(b7 as u8);
    proof {
        reveal_with_fuel(byte_at, 9);
        assert(bits == bits_of(at.nanos));
        assert(key@ =~= history_key_of(at));
    }
    key
}

/// Of two numbers of 64 bits the smaller has the key that sorts first.
proof fn lemma_big_endian_order(x: nat, y: nat)
    requires
        x < y < 0x1_0000_0000_0000_0000,
    ensures
        sorts_before(big_endian(x), big_endian(y)),
{
    reveal_with_fuel(byte_at, 9);
    let a = big_endian(x);
    let b = big_endian(y);
    let x1 = x / 256;
    let x2 = x1 / 256;
    let x3 = x2 / 256;
    let x4 = x3 / 256;
    let x5 = x4 / 256;
    let x6 = x5 / 256;
    let x7 = x6 / 256;
    let y1 = y / 256;
    let y2 = y1 / 256;
    let y3 = y2 / 256;
    let y4 = y3 / 256;
    let y5 = y4 / 256;
    let y6 = y5 / 256;
    let y7 = y6 / 256;
    assert(x7 < 256 && y7 < 256);
    assert(a[0] == x7 % 256 && b[0] == y7 % 256);
    assert(a[1] == x6 % 256 && b[1] == y6 % 256);
    assert(a[2] == x5 % 256 && b[2] == y5 % 256);
    assert(a[3] == x4 % 256 && b[3] == y4 % 256);
    assert(a[4] == x3 % 256 && b[4] == y3 % 256);
    assert(a[5] == x2 % 256 && b[5] == y2 % 256);
    assert(a[6] == x1 % 256 && b[6] == y1 % 256);
    assert(a[7] == x % 256 && b[7] == y % 256);
    if x7 != y7 {
        assert(a.take(0) =~= b.take(0));
        assert(a[0] < b[0]);
    } else if x6 != y6 {
        assert(a.take(1) =~= b.take(1));
        assert(a[1] < b[1]);
    } else if x5 != y5 {
        assert(a.take(2) =~= b.take(2));
        assert(a[2] < b[2]);
    } else if x4 != y4 {
        assert(a.take(3) =~= b.take(3));
        assert(a[3] < b[3]);
    } else if x3 != y3 {
        assert(a.take(4) =~= b.take(4));
        assert(a[4] < b[4]);
    } else if x2 != y2 {
        assert(a.take(5) =~= b.take(5));
        assert(a[5] < b[5]);
    } else if x1 != y1 {
        assert(a.take(6) =~= b.take(6));
        assert(a[6] < b[6]);
    } else {
        assert(a.take(7) =~= b.take(7));
        assert(a[7] < b[7]);
    }
}

/// The history keys of two instants on the same side of the epoch sort as the
/// instants do: the earlier one has the key that stands first. (An instant
/// before the epoch has the highest bit set, and so sorts behind every instant
/// after it.)
pub proof fn history_keys_sort_by_time(earlier: Timestamp, later: Timestamp)
    requires
        earlier.nanos < later.nanos,
        earlier.nanos >= 0 || later.nanos < 0,
    ensures
        sorts_before(history_key_of(earlier), history_key_of(later)),
{
    lemma_big_endian_order(bits_of(earlier.nanos), bits_of(later.nanos));
}

} // verus!
