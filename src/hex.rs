use vstd::prelude::*;

verus! {

/// Whether `c` is one of `0-9`, `a-f`, `A-F`.
pub open spec fn is_hex_digit(c: char) -> bool {
    ('0' <= c && c <= '9') || ('a' <= c && c <= 'f') || ('A' <= c && c <= 'F')
}

/// The value of a hexadecimal digit, case-insensitive.
pub open spec fn hex_value(c: char) -> nat {
    if '0' <= c && c <= '9' {
        (c as nat - '0' as nat) as nat
    } else if 'a' <= c && c <= 'f' {
        (c as nat - 'a' as nat + 10) as nat
    } else {
        (c as nat - 'A' as nat + 10) as nat
    }
}

/// The digit that stands for `n < 16`, upper or lower case.
pub open spec fn hex_digit(n: nat, upper: bool) -> char
    recommends
        n < 16,
{
    if n < 10 {
        (('0' as nat) + n) as char
    } else if upper {
        (('A' as nat) + n - 10) as char
    } else {
        (('a' as nat) + n - 10) as char
    }
}

/// `v` written with exactly `width` hexadecimal digits, most significant first
/// (the digits above `width` are dropped).
pub open spec fn hex_fixed(v: nat, width: nat, upper: bool) -> Seq<char>
    decreases width,
{
    if width == 0 {
        Seq::empty()
    } else {
        hex_fixed(v / 16, (width - 1) as nat, upper).push(hex_digit(v % 16, upper))
    }
}

/// Each byte of `b` as two hexadecimal digits.
pub open spec fn hex_of_bytes(b: Seq<u8>, upper: bool) -> Seq<char>
    decreases b.len(),
{
    if b.len() == 0 {
        Seq::empty()
    } else {
        hex_of_bytes(b.drop_last(), upper) + hex_fixed(b.last() as nat, 2, upper)
    }
}

/// Whether every character of `s` is a hexadecimal digit.
pub open spec fn all_hex(s: Seq<char>) -> bool {
    forall|i: int| 0 <= i < s.len() ==> is_hex_digit(#[trigger] s[i])
}

/// The bytes spelled by pairs of hexadecimal digits, high digit first.
pub open spec fn bytes_of_hex(s: Seq<char>) -> Seq<u8> {
    Seq::new(
        s.len() / 2,
        |i: int| (hex_value(s[2 * i]) * 16 + hex_value(s[2 * i + 1])) as u8,
    )
}

/// Relies on `String::push`: the character is appended at the end.
#[verifier::external_body]
pub(crate) fn push_char(s: &mut String, c: char)
    ensures
        final(s)@ == old(s)@.push(c),
{
    s.push(c)
}

pub fn hex_value_of(c: char) -> (r: u8)
    requires
        is_hex_digit(c),
    ensures
        r as nat == hex_value(c),
        r < 16,
{
    if '0' <= c && c <= '9' {
        (c as u32 - '0' as u32) as u8
    } else if 'a' <= c && c <= 'f' {
        (c as u32 - 'a' as u32 + 10) as u8
    } else {
        (c as u32 - 'A' as u32 + 10) as u8
    }
}

pub fn hex_digit_of(n: u8, upper: bool) -> (r: char)
    requires
        n < 16,
    ensures
        r == hex_digit(n as nat, upper),
{
    if n < 10 {
        (48u8 + n) as char
    } else if upper {
        (55u8 + n) as char
    } else {
        (87u8 + n) as char
    }
}

/// Appends `v` to `out` as exactly `width` hexadecimal digits.
pub fn push_hex_fixed(out: &mut String, v: u32, width: usize, upper: bool)
    ensures
        final(out)@ == old(out)@ + hex_fixed(v as nat, width as nat, upper),
    decreases width,
{
    if width > 0 {
        push_hex_fixed(out, v / 16, width - 1, upper);
        let d = hex_digit_of((v % 16) as u8, upper);
        push_char(out, d);
        proof {
            let head = hex_fixed((v / 16) as nat, (width - 1) as nat, upper);
            assert(hex_fixed(v as nat, width as nat, upper) == head.push(d));
            assert(final(out)@ =~= old(out)@ + head.push(d));
        }
    } else {
        assert(old(out)@ + hex_fixed(v as nat, 0, upper) =~= old(out)@);
    }
}

/// Appends each byte of `b` to `out` as two hexadecimal digits.
pub fn push_hex_bytes(out: &mut String, b: &[u8], upper: bool)
    ensures
        final(out)@ == old(out)@ + hex_of_bytes(b@, upper),
{
    let mut i: usize = 0;
    while i < b.len()
        invariant
            i <= b@.len(),
            out@ == old(out)@ + hex_of_bytes(b@.subrange(0, i as int), upper),
        decreases b@.len() - i,
    {
        let ghost before = out@;
        push_hex_fixed(out, b[i] as u32, 2, upper);
        proof {
            let next = b@.subrange(0, i + 1);
            assert(next.drop_last() =~= b@.subrange(0, i as int));
            assert(next.last() == b@[i as int]);
            assert(out@ =~= old(out)@ + hex_of_bytes(next, upper));
        }
        i = i + 1;
    }
    assert(b@.subrange(0, b@.len() as int) =~= b@);
}

} // verus!
