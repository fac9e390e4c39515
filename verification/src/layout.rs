//! Byte-level helpers shared by every fixed-layout container: the all-zero
//! predicate, byte-wise comparison, hexadecimal rendering, and the trusted
//! plain-old-data reinterpretation primitives built on `bytemuck`.

use vstd::prelude::*;
use vstd::slice::slice_subrange;
use vstd::string::StringExecFns;

verus! {

/// Holds when every byte of `s` is zero.
pub open spec fn all_zero(s: Seq<u8>) -> bool {
    forall|i: int| 0 <= i < s.len() ==> s[i] == 0
}

/// Relies on `bytemuck::Zeroable::zeroed`: the all-zero value of a
/// plain-old-data type; for a byte array, every byte is zero.
#[verifier::external_body]
pub(crate) fn zeroed_array<const N: usize>() -> (r: [u8; N])
    ensures
        all_zero(r@),
{
    bytemuck::Zeroable::zeroed()
}

/// Relies on `bytemuck::bytes_of`: the byte slice backing a plain-old-data
/// value; for a byte array, the array's own bytes, unchanged.
#[verifier::external_body]
pub(crate) fn pod_bytes<const N: usize>(a: &[u8; N]) -> (r: &[u8])
    ensures
        r@ == a@,
{
    bytemuck::bytes_of(a)
}

/// Relies on `bytemuck::pod_read_unaligned`: reads a plain-old-data value
/// out of a byte slice whose length is exactly the value's size (it panics
/// on any other length); for a byte array, the value holds the slice's
/// bytes, unchanged.
#[verifier::external_body]
pub(crate) fn pod_from_bytes<const N: usize>(s: &[u8]) -> (r: [u8; N])
    requires
        s@.len() == N,
    ensures
        r@ == s@,
{
    bytemuck::pod_read_unaligned(s)
}

/// Byte-wise comparison of two byte slices.
pub fn bytes_eq(a: &[u8], b: &[u8]) -> (r: bool)
    ensures
        r == (a@ == b@),
{
    if a.len() != b.len() {
        return false;
    }
    let n = a.len();
    let mut i: usize = 0;
    while i < n
        invariant
            n == a@.len(),
            n == b@.len(),
            i <= n,
            forall|j: int| 0 <= j < i ==> a@[j] == b@[j],
        decreases n - i,
    {
        if a[i] != b[i] {
            return false;
        }
        i += 1;
    }
    proof {
        assert(a@ =~= b@);
    }
    true
}

/// The lower-case hexadecimal digit for a value below 16.
pub open spec fn hex_digit(n: int) -> char {
    if n == 0 {
        '0'
    } else if n == 1 {
        '1'
    } else if n == 2 {
        '2'
    } else if n == 3 {
        '3'
    } else if n == 4 {
        '4'
    } else if n == 5 {
        '5'
    } else if n == 6 {
        '6'
    } else if n == 7 {
        '7'
    } else if n == 8 {
        '8'
    } else if n == 9 {
        '9'
    } else if n == 10 {
        'a'
    } else if n == 11 {
        'b'
    } else if n == 12 {
        'c'
    } else if n == 13 {
        'd'
    } else if n == 14 {
        'e'
    } else {
        'f'
    }
}

/// The lower-case hexadecimal rendering of a byte sequence: two digits per
/// byte, highest-order digit first.
pub open spec fn hex_render(s: Seq<u8>) -> Seq<char>
    decreases s.len(),
{
    if s.len() == 0 {
        Seq::empty()
    } else {
        hex_render(s.drop_last()) + seq![
            hex_digit(s.last() as int / 16),
            hex_digit(s.last() as int % 16),
        ]
    }
}

/// The string literal for one hexadecimal digit.
fn hex_digit_str(n: u8) -> (r: &'static str)
    requires
        n < 16,
    ensures
        r@ == seq![hex_digit(n as int)],
{
    proof {
        reveal_strlit("0");
        reveal_strlit("1");
        reveal_strlit("2");
        reveal_strlit("3");
        reveal_strlit("4");
        reveal_strlit("5");
        reveal_strlit("6");
        reveal_strlit("7");
        reveal_strlit("8");
        reveal_strlit("9");
        reveal_strlit("a");
        reveal_strlit("b");
        reveal_strlit("c");
        reveal_strlit("d");
        reveal_strlit("e");
        reveal_strlit("f");
    }
    match n {
        0 => "0",
        1 => "1",
        2 => "2",
        3 => "3",
        4 => "4",
        5 => "5",
        6 => "6",
        7 => "7",
        8 => "8",
        9 => "9",
        10 => "a",
        11 => "b",
        12 => "c",
        13 => "d",
        14 => "e",
        _ => "f",
    }
}

/// Renders a byte slice as lower-case hexadecimal, two digits per byte.
pub fn render_hex(b: &[u8]) -> (r: String)
    ensures
        r@ == hex_render(b@),
{
    let mut out = String::new();
    let n = b.len();
    let mut i: usize = 0;
    while i < n
        invariant
            n == b@.len(),
            i <= n,
            out@ == hex_render(b@.subrange(0, i as int)),
        decreases n - i,
    {
        let byte = b[i];
        out.append(hex_digit_str(byte / 16));
        out.append(hex_digit_str(byte % 16));
        proof {
            let done = b@.subrange(0, i as int + 1);
            assert(done.drop_last() =~= b@.subrange(0, i as int));
            assert(done.last() == b@[i as int]);
        }
        i += 1;
    }
    proof {
        assert(b@.subrange(0, n as int) =~= b@);
    }
    out
}

/// Reads the fixed-width sub-slice of `s` that starts at `start`.
pub fn sub_bytes<'a>(s: &'a [u8], start: usize, end: usize) -> (r: &'a [u8])
    requires
        start <= end <= s@.len(),
    ensures
        r@ == s@.subrange(start as int, end as int),
{
    slice_subrange(s, start, end)
}

} // verus!
