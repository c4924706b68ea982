//! Integer conversions and decimal renderings of numbers.
use vstd::prelude::*;
use vstd::utf8::is_ascii_chars;

verus! {

/// The character of a decimal digit `d` (0 to 9).
pub open spec fn digit_char(d: int) -> char {
    if d == 0 {
        '0'
    } else if d == 1 {
        '1'
    } else if d == 2 {
        '2'
    } else if d == 3 {
        '3'
    } else if d == 4 {
        '4'
    } else if d == 5 {
        '5'
    } else if d == 6 {
        '6'
    } else if d == 7 {
        '7'
    } else if d == 8 {
        '8'
    } else {
        '9'
    }
}

/// The decimal digits of `n`, most significant first, without leading zeros.
pub open spec fn digits(n: nat) -> Seq<char>
    decreases n,
{
    if n < 10 {
        seq![digit_char(n as int)]
    } else {
        digits(n / 10).push(digit_char((n % 10) as int))
    }
}

/// The decimal representation of `v`: a minus sign for negative values, then the digits.
pub open spec fn decimal(v: int) -> Seq<char> {
    if v < 0 {
        seq!['-'] + digits((-v) as nat)
    } else {
        digits(v as nat)
    }
}

/// `s` with zeros put in front until it is `width` characters long.
pub open spec fn pad_zeros(s: Seq<char>, width: nat) -> Seq<char> {
    if s.len() >= width {
        s
    } else {
        Seq::new((width - s.len()) as nat, |i: int| '0') + s
    }
}

/// The decimal representation of `v`, zero-padded after the sign to `width`
/// characters in all (the `{:0width}` rendering of an integer).
pub open spec fn zero_padded(v: int, width: nat) -> Seq<char> {
    if v < 0 {
        seq!['-'] + pad_zeros(digits((-v) as nat), if width >= 1 { (width - 1) as nat } else { 0 })
    } else {
        pad_zeros(digits(v as nat), width)
    }
}

/// Ten to the power `k`.
pub open spec fn pow10(k: nat) -> nat
    decreases k,
{
    if k == 0 {
        1
    } else {
        10 * pow10((k - 1) as nat)
    }
}

/// Digits are ASCII characters.
pub proof fn lemma_digits_ascii(n: nat)
    ensures
        is_ascii_chars(digits(n)),
        digits(n).len() >= 1,
    decreases n,
{
    if n >= 10 {
        lemma_digits_ascii(n / 10);
        assert forall|i: int| 0 <= i < digits(n).len() implies '\0' <= #[trigger] digits(n)[i]
            <= '\u{7f}' by {
            if i < digits(n / 10).len() {
                assert(digits(n)[i] == digits(n / 10)[i]);
            }
        }
    }
}

/// A number below `10^k` has at most `k` digits.
pub proof fn lemma_digits_len(n: nat, k: nat)
    requires
        k >= 1,
        n < pow10(k),
    ensures
        digits(n).len() <= k,
    decreases n,
{
    if n >= 10 {
        assert(pow10(k) == 10 * pow10((k - 1) as nat));
        if k == 1 {
            assert(pow10(0) == 1);
        } else {
            assert(n / 10 < pow10((k - 1) as nat));
            lemma_digits_len(n / 10, (k - 1) as nat);
        }
    }
}

/// The decimal rendering of `v` is ASCII, and at most `k` characters long where
/// `-10^(k-1) < v < 10^k`.
pub proof fn lemma_decimal_fits(v: int, k: nat)
    requires
        k >= 2,
        -(pow10((k - 1) as nat) as int) < v < pow10(k),
    ensures
        is_ascii_chars(decimal(v)),
        decimal(v).len() <= k,
{
    if v < 0 {
        lemma_digits_ascii((-v) as nat);
        lemma_digits_len((-v) as nat, (k - 1) as nat);
        assert forall|i: int| 0 <= i < decimal(v).len() implies '\0' <= #[trigger] decimal(v)[i]
            <= '\u{7f}' by {
            if i > 0 {
                assert(decimal(v)[i] == digits((-v) as nat)[i - 1]);
            }
        }
    } else {
        lemma_digits_ascii(v as nat);
        lemma_digits_len(v as nat, k);
    }
}

/// The six-wide zero-padded rendering of a value in `-99_999 ..= 999_999` is
/// six ASCII characters.
pub proof fn lemma_zero_padded6_fits(v: int)
    requires
        -99_999 <= v <= 999_999,
    ensures
        is_ascii_chars(zero_padded(v, 6)),
        zero_padded(v, 6).len() == 6,
{
    reveal_with_fuel(pow10, 7);
    if v < 0 {
        let d = digits((-v) as nat);
        lemma_digits_ascii((-v) as nat);
        lemma_digits_len((-v) as nat, 5);
        let p = pad_zeros(d, 5);
        assert(is_ascii_chars(p));
        assert forall|i: int| 0 <= i < zero_padded(v, 6).len() implies '\0'
            <= #[trigger] zero_padded(v, 6)[i] <= '\u{7f}' by {
            if i > 0 {
                assert(zero_padded(v, 6)[i] == p[i - 1]);
            }
        }
    } else {
        lemma_digits_ascii(v as nat);
        lemma_digits_len(v as nat, 6);
    }
}

/// Whether `c` is one of the decimal digits `0` to `9`.
pub open spec fn is_digit(c: char) -> bool {
    '0' <= c <= '9'
}

/// Whether every character of `s` is a decimal digit.
pub open spec fn all_digits(s: Seq<char>) -> bool {
    forall|i: int| 0 <= i < s.len() ==> is_digit(#[trigger] s[i])
}

/// The number that a decimal digit character stands for.
pub open spec fn digit_value(c: char) -> int {
    (c as int) - ('0' as int)
}

/// The number that a string of decimal digits stands for, read most
/// significant digit first.
pub open spec fn digits_value(s: Seq<char>) -> int
    decreases s.len(),
{
    if s.len() == 0 {
        0
    } else {
        digits_value(s.drop_last()) * 10 + digit_value(s.last())
    }
}

proof fn lemma_digit_char(d: int)
    requires
        0 <= d < 10,
    ensures
        is_digit(digit_char(d)),
        digit_value(digit_char(d)) == d,
        d != 0 ==> digit_char(d) != '0',
{
}

/// The digits of `n` are decimal digits without a leading zero (but for zero
/// itself) and read back as `n`.
pub proof fn lemma_digits_read_back(n: nat)
    ensures
        all_digits(digits(n)),
        digits_value(digits(n)) == n,
        n > 0 ==> digits(n)[0] != '0',
        digits(n).len() >= 1,
    decreases n,
{
    if n < 10 {
        lemma_digit_char(n as int);
        assert(digits(n).drop_last() =~= Seq::<char>::empty());
        assert(digits_value(digits(n)) == digits_value(digits(n).drop_last()) * 10 + digit_value(
            digits(n).last(),
        ));
    } else {
        let q = n / 10;
        lemma_digits_read_back(q);
        lemma_digit_char((n % 10) as int);
        let d = digits(n);
        assert(d.drop_last() =~= digits(q));
        assert(d.last() == digit_char((n % 10) as int));
        assert(d[0] == digits(q)[0]);
        assert(digits_value(d) == digits_value(d.drop_last()) * 10 + digit_value(d.last()));
        assert(q * 10 + n % 10 == n);
        assert forall|i: int| 0 <= i < d.len() implies is_digit(#[trigger] d[i]) by {
            if i < d.len() - 1 {
                assert(d[i] == digits(q)[i]);
            }
        }
    }
}

proof fn lemma_zeros_value(k: nat)
    ensures
        digits_value(Seq::new(k, |i: int| '0')) == 0,
        all_digits(Seq::new(k, |i: int| '0')),
    decreases k,
{
    if k > 0 {
        lemma_zeros_value((k - 1) as nat);
        assert(Seq::new(k, |i: int| '0').drop_last() =~= Seq::new((k - 1) as nat, |i: int| '0'));
    }
}

proof fn lemma_zeros_prefix_value(k: nat, s: Seq<char>)
    ensures
        digits_value(Seq::new(k, |i: int| '0') + s) == digits_value(s),
    decreases s.len(),
{
    let z = Seq::new(k, |i: int| '0');
    if s.len() == 0 {
        lemma_zeros_value(k);
        assert(z + s =~= z);
    } else {
        lemma_zeros_prefix_value(k, s.drop_last());
        assert((z + s).drop_last() =~= z + s.drop_last());
    }
}

/// Padding with zeros keeps the digits' value.
pub proof fn lemma_pad_zeros_value(s: Seq<char>, width: nat)
    requires
        all_digits(s),
    ensures
        all_digits(pad_zeros(s, width)),
        digits_value(pad_zeros(s, width)) == digits_value(s),
        s.len() >= width ==> pad_zeros(s, width).len() == s.len(),
        s.len() < width ==> pad_zeros(s, width).len() == width,
{
    if s.len() < width {
        let k = (width - s.len()) as nat;
        lemma_zeros_value(k);
        lemma_zeros_prefix_value(k, s);
        let p = Seq::new(k, |i: int| '0') + s;
        assert forall|i: int| 0 <= i < p.len() implies is_digit(#[trigger] p[i]) by {
            if i >= k {
                assert(p[i] == s[i - k]);
            }
        }
    }
}

/// The decimal rendering of `v` reads back as `v`: for a value of zero or more,
/// digits without a leading zero whose value is `v`; for a negative value, a
/// minus sign and then such digits for `-v`.
pub proof fn lemma_decimal_reads_back(v: int)
    ensures
        v >= 0 ==> all_digits(decimal(v)) && digits_value(decimal(v)) == v && (decimal(v).len()
            > 1 ==> decimal(v)[0] != '0'),
        v < 0 ==> decimal(v)[0] == '-' && all_digits(decimal(v).drop_first()) && digits_value(
            decimal(v).drop_first(),
        ) == -v && decimal(v).drop_first()[0] != '0',
{
    if v >= 0 {
        lemma_digits_read_back(v as nat);
        if v == 0 {
            assert(decimal(v).len() == 1);
        }
    } else {
        lemma_digits_read_back((-v) as nat);
        assert(decimal(v).drop_first() =~= digits((-v) as nat));
    }
}

/// The six-wide zero-padded rendering of a value in `-99_999 ..= 999_999` reads
/// back as the value: six digits for a value of zero or more, a minus sign and
/// five digits for a negative one.
pub proof fn lemma_zero_padded6_reads_back(v: int)
    requires
        -99_999 <= v <= 999_999,
    ensures
        zero_padded(v, 6).len() == 6,
        v >= 0 ==> all_digits(zero_padded(v, 6)) && digits_value(zero_padded(v, 6)) == v,
        v < 0 ==> zero_padded(v, 6)[0] == '-' && all_digits(zero_padded(v, 6).drop_first())
            && digits_value(zero_padded(v, 6).drop_first()) == -v,
{
    lemma_zero_padded6_fits(v);
    if v >= 0 {
        lemma_digits_read_back(v as nat);
        lemma_pad_zeros_value(digits(v as nat), 6);
    } else {
        lemma_digits_read_back((-v) as nat);
        lemma_pad_zeros_value(digits((-v) as nat), 5);
        assert(zero_padded(v, 6).drop_first() =~= pad_zeros(digits((-v) as nat), 5));
    }
}

/// Renders `v` in decimal, as `format!("{}", v)` does.
///
/// Trusted: std's `Display` for `i32` writes a minus sign for negative
/// values followed by the decimal digits without leading zeros.
#[verifier::external_body]
pub(crate) fn decimal_string(v: i32) -> (s: String)
    ensures
        s@ == decimal(v as int),
{
    format!("{}", v)
}

/// Renders `v` in decimal zero-padded to six characters, as `format!("{:06}", v)` does.
///
/// Trusted: std's `Display` for `i32` with the `0` flag and width 6 puts the sign
/// first and fills with zeros between the sign and the digits up to six characters.
#[verifier::external_body]
pub(crate) fn zero_padded6_string(v: i32) -> (s: String)
    ensures
        s@ == zero_padded(v as int, 6),
{
    format!("{:06}", v)
}

/// Converts a `usize` to an `i32` with `num_traits::ToPrimitive::to_i32`.
///
/// Trusted: the num-traits source returns `Some(v as i32)` when `v <= i32::MAX`
/// and `None` otherwise.
#[verifier::external_body]
pub(crate) fn usize_to_i32(v: usize) -> (r: Option<i32>)
    ensures
        r is Some <==> v <= i32::MAX,
        r matches Some(x) ==> x == v,
{
    num_traits::ToPrimitive::to_i32(&v)
}

/// Converts a `usize` to a `u32` with `num_traits::ToPrimitive::to_u32`.
///
/// Trusted: the num-traits source returns `Some(v as u32)` when `v <= u32::MAX`
/// and `None` otherwise.
#[verifier::external_body]
pub(crate) fn usize_to_u32(v: usize) -> (r: Option<u32>)
    ensures
        r is Some <==> v <= u32::MAX,
        r matches Some(x) ==> x == v,
{
    num_traits::ToPrimitive::to_u32(&v)
}

} // verus!
