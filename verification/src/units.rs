//! Byte counts and megabyte counts rendered for people, base 1024.

use vstd::prelude::*;
use vstd::string::*;
use crate::text::{
    all_digits, append_decimal, decimal, digit_char, digit_str, is_digit, lemma_decimal_digits,
};

verus! {

/// The bytes of a kilobyte.
pub const KIB: u64 = 1024;

/// The bytes of a megabyte.
pub const MIB: u64 = 1_048_576;

/// The bytes of a gigabyte.
pub const GIB: u64 = 1_073_741_824;

/// The bytes of a terabyte.
pub const TIB: u64 = 1_099_511_627_776;

/// The unit in which a byte count is shown.
#[derive(Debug, Clone, Copy, PartialEq, Eq, Structural)]
pub enum ByteUnit {
    B,
    KB,
    MB,
    GB,
    TB,
}

impl ByteUnit {
    /// How many bytes one of this unit holds.
    pub open spec fn bytes(self) -> nat {
        match self {
            ByteUnit::B => 1,
            ByteUnit::KB => 1024,
            ByteUnit::MB => 1_048_576,
            ByteUnit::GB => 1_073_741_824,
            ByteUnit::TB => 1_099_511_627_776,
        }
    }

    /// The text that follows the number: a space and the unit's name.
    pub open spec fn suffix(self) -> Seq<char> {
        match self {
            ByteUnit::B => seq![' ', 'B'],
            ByteUnit::KB => seq![' ', 'K', 'B'],
            ByteUnit::MB => seq![' ', 'M', 'B'],
            ByteUnit::GB => seq![' ', 'G', 'B'],
            ByteUnit::TB => seq![' ', 'T', 'B'],
        }
    }
}

/// The largest unit that `bytes` reaches.
pub open spec fn unit_of(bytes: u64) -> ByteUnit {
    if bytes >= TIB {
        ByteUnit::TB
    } else if bytes >= GIB {
        ByteUnit::GB
    } else if bytes >= MIB {
        ByteUnit::MB
    } else if bytes >= KIB {
        ByteUnit::KB
    } else {
        ByteUnit::B
    }
}

/// `n / d` rounded to the nearest whole number, a tie going to the even one.
pub open spec fn round_half_even(n: nat, d: nat) -> nat {
    let q = n / d;
    let r = n % d;
    if 2 * r > d || (2 * r == d && q % 2 == 1) {
        q + 1
    } else {
        q
    }
}

/// A count of hundredths written with two decimal places.
pub open spec fn fixed2(h: nat) -> Seq<char> {
    decimal(h / 100) + seq!['.', digit_char(h / 10 % 10), digit_char(h % 10)]
}

/// The distance between neighbouring binary numbers of 53 significant bits
/// at `bytes`: 1 below 2^53, and twice as much with every further bit.
pub open spec fn double_step(bytes: u64) -> nat {
    if bytes < 0x0020_0000_0000_0000 {
        1
    } else if bytes < 0x0040_0000_0000_0000 {
        2
    } else if bytes < 0x0080_0000_0000_0000 {
        4
    } else if bytes < 0x0100_0000_0000_0000 {
        8
    } else if bytes < 0x0200_0000_0000_0000 {
        16
    } else if bytes < 0x0400_0000_0000_0000 {
        32
    } else if bytes < 0x0800_0000_0000_0000 {
        64
    } else if bytes < 0x1000_0000_0000_0000 {
        128
    } else if bytes < 0x2000_0000_0000_0000 {
        256
    } else if bytes < 0x4000_0000_0000_0000 {
        512
    } else if bytes < 0x8000_0000_0000_0000 {
        1024
    } else {
        2048
    }
}

/// `bytes` as double-precision arithmetic holds it: the nearest number of
/// 53 significant bits, a tie going to the even one. Below 2^53 that is
/// `bytes` itself.
pub open spec fn nearest_double(bytes: u64) -> nat {
    round_half_even(bytes as nat, double_step(bytes)) * double_step(bytes)
}

/// The number that stands for `bytes` in its unit, in hundredths of the
/// unit: the count in double precision, divided by the unit and rounded to
/// two decimal places.
pub open spec fn shown_hundredths(bytes: u64) -> nat {
    round_half_even(nearest_double(bytes) * 100, unit_of(bytes).bytes())
}

/// The byte count that the rendering of `bytes` denotes, in hundredths of a
/// byte.
pub open spec fn shown_magnitude(bytes: u64) -> nat {
    shown_hundredths(bytes) * unit_of(bytes).bytes()
}

/// The rendering of a byte count: a whole number of bytes below 1024, else
/// the count in its unit with two decimal places, computed as in double
/// precision.
pub open spec fn format_bytes_spec(bytes: u64) -> Seq<char> {
    match unit_of(bytes) {
        ByteUnit::B => decimal(bytes as nat) + ByteUnit::B.suffix(),
        u => fixed2(shown_hundredths(bytes)) + u.suffix(),
    }
}

/// A megabyte count in gigabytes, with two decimal places. A count that
/// fits 64 bits is taken in double precision, as a byte count is.
pub open spec fn format_gb_spec(mb: nat) -> Seq<char> {
    if mb <= u64::MAX {
        fixed2(round_half_even(nearest_double(mb as u64) * 100, 1024))
    } else {
        fixed2(round_half_even(mb * 100, 1024))
    }
}

/// A byte count that is at least as large is never shown as less: within a
/// unit the shown number does not go down, and across a unit boundary the
/// shown magnitude does not either.
pub proof fn lemma_format_bytes_monotone(a: u64, b: u64)
    requires
        a <= b,
    ensures
        unit_of(a).bytes() <= unit_of(b).bytes(),
        unit_of(a) == unit_of(b) ==> shown_hundredths(a) <= shown_hundredths(b),
        shown_magnitude(a) <= shown_magnitude(b),
{
    let ua = unit_of(a).bytes();
    let ub = unit_of(b).bytes();
    lemma_shown_bounds(a);
    lemma_shown_bounds(b);
    if unit_of(a) == unit_of(b) {
        lemma_nearest_double_monotone(a, b);
        lemma_round_monotone(nearest_double(a) * 100, nearest_double(b) * 100, ua);
        assert(shown_hundredths(a) * ua <= shown_hundredths(b) * ua) by (nonlinear_arith)
            requires
                shown_hundredths(a) <= shown_hundredths(b),
        ;
    } else {
        assert(ua * 1024 <= ub);
        assert(shown_hundredths(a) * ua <= shown_hundredths(b) * ub) by (nonlinear_arith)
            requires
                shown_hundredths(a) <= 102400,
                shown_hundredths(b) >= 100,
                ua * 1024 <= ub,
        ;
    }
}

/// In its unit a byte count is shown as at least 1.00, and below the top
/// unit as at most 1024.00.
pub proof fn lemma_shown_bounds(bytes: u64)
    ensures
        unit_of(bytes) != ByteUnit::B ==> shown_hundredths(bytes) >= 100,
        unit_of(bytes) != ByteUnit::TB ==> shown_hundredths(bytes) <= 102400,
{
    lemma_nearest_double_bounds(bytes);
    let n = nearest_double(bytes) * 100;
    match unit_of(bytes) {
        ByteUnit::B => {
            assert(n / 1 == n && n % 1 == 0);
        },
        ByteUnit::KB => {
            assert(100 <= n / 1024 < 102400);
        },
        ByteUnit::MB => {
            assert(100 <= n / 1_048_576 < 102400);
        },
        ByteUnit::GB => {
            assert(100 <= n / 1_073_741_824 < 102400);
        },
        ByteUnit::TB => {
            assert(100 <= n / 1_099_511_627_776);
        },
    }
}

/// Rounding to a multiple of `s` stays within the multiples that enclose the
/// number.
pub proof fn lemma_round_scaled_bounds(b: nat, s: nat, lo: nat, hi: nat)
    requires
        s > 0,
        lo * s <= b < hi * s,
    ensures
        lo * s <= round_half_even(b, s) * s <= hi * s,
{
    let q = b / s;
    let r = b % s;
    vstd::arithmetic::div_mod::lemma_fundamental_div_mod(b as int, s as int);
    vstd::arithmetic::div_mod::lemma_mod_bound(b as int, s as int);
    assert(lo <= q && q + 1 <= hi) by (nonlinear_arith)
        requires
            s > 0,
            lo * s <= b < hi * s,
            b == s * q + r,
            0 <= r < s,
    ;
    let v = round_half_even(b, s);
    assert(q <= v <= q + 1);
    assert(lo * s <= v * s <= hi * s) by (nonlinear_arith)
        requires
            lo <= q <= v,
            v <= q + 1 <= hi,
            s > 0,
    ;
}

/// Where the double of a byte count lies: it is the count itself below
/// 2^53, and above that within the 2^52 to 2^53 steps around the count.
pub proof fn lemma_nearest_double_bounds(bytes: u64)
    ensures
        bytes < 0x0020_0000_0000_0000 ==> nearest_double(bytes) == bytes,
        bytes >= 0x0020_0000_0000_0000 ==> 0x0010_0000_0000_0000 * double_step(bytes)
            <= nearest_double(bytes) <= 0x0020_0000_0000_0000 * double_step(bytes),
        bytes >= 0x0020_0000_0000_0000 ==> double_step(bytes) >= 2,
{
    let s = double_step(bytes);
    if bytes < 0x0020_0000_0000_0000 {
        assert(bytes as nat / 1 == bytes as nat && bytes as nat % 1 == 0);
    } else {
        assert(0x0010_0000_0000_0000 * s <= bytes < 0x0020_0000_0000_0000 * s);
        lemma_round_scaled_bounds(bytes as nat, s, 0x0010_0000_0000_0000, 0x0020_0000_0000_0000);
    }
}

/// A byte count that is at least as large has a double that is at least as
/// large.
pub proof fn lemma_nearest_double_monotone(a: u64, b: u64)
    requires
        a <= b,
    ensures
        nearest_double(a) <= nearest_double(b),
{
    let sa = double_step(a);
    let sb = double_step(b);
    lemma_nearest_double_bounds(a);
    lemma_nearest_double_bounds(b);
    if sa == sb {
        lemma_round_monotone(a as nat, b as nat, sa);
        assert(round_half_even(a as nat, sa) * sa <= round_half_even(b as nat, sa) * sa)
            by (nonlinear_arith)
            requires
                round_half_even(a as nat, sa) <= round_half_even(b as nat, sa),
        ;
    } else {
        assert(2 * sa <= sb);
    }
}

/// Rounding to nearest keeps the order of the numerators.
pub proof fn lemma_round_monotone(m: nat, n: nat, d: nat)
    requires
        m <= n,
        d > 0,
    ensures
        round_half_even(m, d) <= round_half_even(n, d),
{
    let qm = m / d;
    let qn = n / d;
    vstd::arithmetic::div_mod::lemma_div_is_ordered(m as int, n as int, d as int);
    vstd::arithmetic::div_mod::lemma_fundamental_div_mod(m as int, d as int);
    vstd::arithmetic::div_mod::lemma_fundamental_div_mod(n as int, d as int);
    vstd::arithmetic::div_mod::lemma_mod_bound(m as int, d as int);
    vstd::arithmetic::div_mod::lemma_mod_bound(n as int, d as int);
    if qm == qn {
        assert(d * qm == d * qn);
        assert(m % d <= n % d);
    }
}

/// Every rendering in a unit above the byte has exactly two decimal places:
/// digits, a point, two digits, then the unit's suffix. A rendering in bytes
/// is digits and the suffix, without a point.
pub proof fn lemma_format_bytes_shape(bytes: u64)
    ensures
        ({
            let s = format_bytes_spec(bytes);
            let k = s.len() - unit_of(bytes).suffix().len();
            &&& s.subrange(k, s.len() as int) == unit_of(bytes).suffix()
            &&& unit_of(bytes) == ByteUnit::B ==> k >= 1 && all_digits(s.take(k))
            &&& unit_of(bytes) != ByteUnit::B ==> {
                &&& k >= 4
                &&& all_digits(s.take(k - 3))
                &&& s[k - 3] == '.'
                &&& is_digit(s[k - 2])
                &&& is_digit(s[k - 1])
            }
        }),
{
    let s = format_bytes_spec(bytes);
    let suffix = unit_of(bytes).suffix();
    let k = s.len() - suffix.len();
    if unit_of(bytes) == ByteUnit::B {
        lemma_decimal_digits(bytes as nat);
        assert(s.take(k) =~= decimal(bytes as nat));
        assert(s.subrange(k, s.len() as int) =~= suffix);
    } else {
        let h = shown_hundredths(bytes);
        lemma_decimal_digits(h / 100);
        assert(s.take(k) =~= fixed2(h));
        assert(s.take(k - 3) =~= decimal(h / 100));
        assert(s.subrange(k, s.len() as int) =~= suffix);
        assert(s[k - 3] == '.');
        assert(s[k - 2] == digit_char(h / 10 % 10));
        assert(s[k - 1] == digit_char(h % 10));
    }
}

/// `n * 100 / d` rounded to nearest, ties to even, for an even `d`.
fn hundredths_of(n: u128, d: u128) -> (h: u128)
    requires
        d == 1024 || d == 1_048_576 || d == 1_073_741_824 || d == 1_099_511_627_776,
    ensures
        h == round_half_even(n as nat * 100, d as nat),
{
    let whole: u128 = n / d;
    let part: u128 = n % d;
    let q: u128 = part * 100 / d;
    let r: u128 = part * 100 % d;
    let up: u128 = if 2 * r > d || (2 * r == d && q % 2 == 1) {
        1
    } else {
        0
    };
    assert(n as nat * 100 / d as nat == whole * 100 + q && n as nat * 100 % d as nat == r) by {
        assert(n as nat * 100 == (whole * 100 + q) * d + r) by (nonlinear_arith)
            requires
                n == whole * d + part,
                part * 100 == q * d + r,
        ;
        vstd::arithmetic::div_mod::lemma_fundamental_div_mod_converse(
            n as int * 100,
            d as int,
            (whole * 100 + q) as int,
            r as int,
        );
    }
    whole * 100 + q + up
}

/// The distance between neighbouring doubles at `bytes`.
fn double_step_of(bytes: u64) -> (step: u64)
    ensures
        step == double_step(bytes),
        1 <= step <= 2048,
{
    if bytes < 0x0020_0000_0000_0000 {
        1
    } else if bytes < 0x0040_0000_0000_0000 {
        2
    } else if bytes < 0x0080_0000_0000_0000 {
        4
    } else if bytes < 0x0100_0000_0000_0000 {
        8
    } else if bytes < 0x0200_0000_0000_0000 {
        16
    } else if bytes < 0x0400_0000_0000_0000 {
        32
    } else if bytes < 0x0800_0000_0000_0000 {
        64
    } else if bytes < 0x1000_0000_0000_0000 {
        128
    } else if bytes < 0x2000_0000_0000_0000 {
        256
    } else if bytes < 0x4000_0000_0000_0000 {
        512
    } else if bytes < 0x8000_0000_0000_0000 {
        1024
    } else {
        2048
    }
}

/// Rounds a byte count to 53 significant bits.
fn nearest_double_of(bytes: u64) -> (v: u128)
    ensures
        v == nearest_double(bytes),
{
    let step: u128 = double_step_of(bytes) as u128;
    let q: u128 = bytes as u128 / step;
    let r: u128 = bytes as u128 % step;
    let up: u128 = if 2 * r > step || (2 * r == step && q % 2 == 1) {
        1
    } else {
        0
    };
    assert((q + up) * step <= 0x1_0000_0000_0000_0001 * 2048) by (nonlinear_arith)
        requires
            q + up <= 0x1_0000_0000_0000_0001,
            step <= 2048,
    ;
    (q + up) * step
}

/// Appends a count of hundredths with two decimal places.
fn append_fixed2(out: &mut String, h: u128)
    ensures
        final(out)@ == old(out)@ + fixed2(h as nat),
{
    append_decimal(out, h / 100);
    out.append(".");
    out.append(digit_str((h / 10 % 10) as u64));
    out.append(digit_str((h % 10) as u64));
    proof {
        reveal_strlit(".");
        assert("."@ =~= seq!['.']);
        assert(final(out)@ =~= old(out)@ + fixed2(h as nat));
    }
}

/// Renders a byte count for people.
pub fn format_bytes(bytes: u64) -> (s: String)
    ensures
        s@ == format_bytes_spec(bytes),
{
    let mut s = String::new();
    proof {
        reveal_strlit(" B");
        reveal_strlit(" KB");
        reveal_strlit(" MB");
        reveal_strlit(" GB");
        reveal_strlit(" TB");
    }
    if bytes >= TIB {
        append_fixed2(&mut s, hundredths_of(nearest_double_of(bytes), TIB as u128));
        s.append(" TB");
        assert(" TB"@ =~= ByteUnit::TB.suffix());
    } else if bytes >= GIB {
        append_fixed2(&mut s, hundredths_of(nearest_double_of(bytes), GIB as u128));
        s.append(" GB");
        assert(" GB"@ =~= ByteUnit::GB.suffix());
    } else if bytes >= MIB {
        append_fixed2(&mut s, hundredths_of(nearest_double_of(bytes), MIB as u128));
        s.append(" MB");
        assert(" MB"@ =~= ByteUnit::MB.suffix());
    } else if bytes >= KIB {
        append_fixed2(&mut s, hundredths_of(nearest_double_of(bytes), KIB as u128));
        s.append(" KB");
        assert(" KB"@ =~= ByteUnit::KB.suffix());
    } else {
        append_decimal(&mut s, bytes as u128);
        s.append(" B");
        assert(" B"@ =~= ByteUnit::B.suffix());
    }
    assert(s@ =~= format_bytes_spec(bytes));
    s
}

/// Renders a megabyte count in gigabytes, with two decimal places.
pub fn format_gb(mb: u128) -> (s: String)
    ensures
        s@ == format_gb_spec(mb as nat),
{
    let mut s = String::new();
    let held: u128 = if mb <= u64::MAX as u128 {
        nearest_double_of(mb as u64)
    } else {
        mb
    };
    append_fixed2(&mut s, hundredths_of(held, 1024));
    assert(s@ =~= format_gb_spec(mb as nat));
    s
}

} // verus!
