//! A 32-bit word as bytes in the machine's order, and as hexadecimal text.

use vstd::prelude::*;
use vstd::string::{StrSliceExecFns, StringExecFns};

verus! {

/// The value of four bytes read with the least significant byte first.
pub open spec fn le_value(bytes: Seq<u8>) -> int {
    bytes[0] + 0x100 * bytes[1] + 0x1_0000 * bytes[2] + 0x100_0000 * bytes[3]
}

/// The value of four bytes read with the most significant byte first.
pub open spec fn be_value(bytes: Seq<u8>) -> int {
    bytes[3] + 0x100 * bytes[2] + 0x1_0000 * bytes[1] + 0x100_0000 * bytes[0]
}

/// Calls `u32::from_ne_bytes`, which reads the bytes in the order of the
/// machine it runs on. Every target orders bytes one of two ways, so the value
/// is taken to be the little-endian or the big-endian reading of them; which of
/// the two is not said.
#[verifier::external_body]
fn native_value(bytes: [u8; 4]) -> (value: u32)
    ensures
        value == le_value(bytes@) || value == be_value(bytes@),
{
    u32::from_ne_bytes(bytes)
}

/// The word that `arr` holds in this machine's byte order.
pub fn from_ne_bytes(arr: [u8; 4]) -> (val: u32)
    ensures
        val == le_value(arr@) || val == be_value(arr@),
{
    native_value(arr)
}

/// The hexadecimal digit for a place value below sixteen.
pub open spec fn digit(place: nat) -> char {
    "0123456789ABCDEF"@[place as int]
}

/// The place values of `n` in base sixteen, most significant first: one place
/// for a number below sixteen, and otherwise the places of `n / 16` followed by
/// `n % 16`.
pub open spec fn places_of(n: nat) -> Seq<nat>
    decreases n,
{
    if n < 16 {
        seq![n]
    } else {
        places_of(n / 16).push(n % 16)
    }
}

/// The number that place values stand for, most significant first.
pub open spec fn value_of(places: Seq<nat>) -> nat
    decreases places.len(),
{
    if places.len() == 0 {
        0
    } else {
        value_of(places.drop_last()) * 16 + places.last()
    }
}

/// `n` in hexadecimal: the digits of its places, so upper case, most
/// significant first.
pub open spec fn hex_text(n: nat) -> Seq<char> {
    places_of(n).map_values(|place: nat| digit(place))
}

/// The places of a number are its notation in base sixteen: each is below
/// sixteen, together they stand for the number, and the first is zero for zero
/// alone.
pub proof fn lemma_places(n: nat)
    ensures
        places_of(n).len() >= 1,
        forall|i: int| 0 <= i < places_of(n).len() ==> #[trigger] places_of(n)[i] < 16,
        value_of(places_of(n)) == n,
        places_of(n)[0] == 0 <==> n == 0,
    decreases n,
{
    if n < 16 {
        assert(value_of(places_of(n).drop_last()) == 0);
    } else {
        lemma_places(n / 16);
        assert(places_of(n).drop_last() == places_of(n / 16));
    }
}

/// Writes `value` in hexadecimal, as `{:X}` formats it: upper-case digits, no
/// prefix and no leading zero.
pub fn upper_hex(value: u32) -> (text: String)
    ensures
        text@ == hex_text(value as nat),
    decreases value,
{
    proof {
        reveal_strlit("0123456789ABCDEF");
    }
    let place: usize = (value % 16) as usize;
    let last = "0123456789ABCDEF".substring_ascii(place, place + 1);
    if value < 16 {
        let text = String::from_str(last);
        assert(text@ == hex_text(value as nat));
        text
    } else {
        let text = upper_hex(value / 16).concat(last);
        assert(text@ == hex_text(value as nat));
        text
    }
}

} // verus!
