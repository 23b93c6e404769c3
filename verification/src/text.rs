//! Text building blocks: decimal and hexadecimal renderings of integers,
//! whitespace trimming, UTF-8 decoding and string comparison.

use vstd::prelude::*;
use vstd::utf8::*;
use vstd::arithmetic::div_mod::{lemma_div_decreases, lemma_fundamental_div_mod, lemma_mod_bound};

verus! {

/// The ASCII digit for a value below 16, lower-case letters above 9.
pub open spec fn digit_char(d: nat) -> char {
    if d < 10 {
        (48 + d) as char
    } else {
        (87 + d) as char
    }
}

/// The digits of `n` in base `radix`, most significant first, with no
/// leading zeros (`0` is written as a single digit).
pub open spec fn radix_digits(n: nat, radix: nat) -> Seq<char>
    recommends
        2 <= radix <= 16,
    decreases n,
{
    if n < radix || radix < 2 {
        seq![digit_char(n)]
    } else {
        proof {
            lemma_div_decreases(n as int, radix as int);
        }
        radix_digits(n / radix, radix).push(digit_char(n % radix))
    }
}

/// How Rust's `Display` writes an integer: an optional minus sign followed
/// by the decimal digits of its magnitude.
pub open spec fn decimal_text(v: int) -> Seq<char> {
    if v < 0 {
        seq!['-'] + radix_digits((-v) as nat, 10)
    } else {
        radix_digits(v as nat, 10)
    }
}

/// How `{:0>w$x}` writes an unsigned integer: its lower-case hexadecimal
/// digits, left-padded with `0` to at least `width` characters.
pub open spec fn hex_padded_text(v: nat, width: nat) -> Seq<char> {
    let digits = radix_digits(v, 16);
    if digits.len() < width {
        Seq::new((width - digits.len()) as nat, |i: int| '0') + digits
    } else {
        digits
    }
}

/// Trusted: std's `String::push`, which appends one character.
#[verifier::external_body]
pub(crate) fn push_char(s: &mut String, c: char)
    ensures
        final(s)@ == old(s)@.push(c),
{
    s.push(c)
}

fn digit(d: u128) -> (c: char)
    requires
        d < 16,
    ensures
        c == digit_char(d as nat),
{
    if d < 10 {
        ((48 + d) as u8) as char
    } else {
        ((87 + d) as u8) as char
    }
}

proof fn lemma_radix_digits_len(n: nat, radix: nat)
    requires
        2 <= radix <= 16,
    ensures
        1 <= radix_digits(n, radix).len() <= n + 1,
    decreases n,
{
    if n >= radix {
        lemma_div_decreases(n as int, radix as int);
        lemma_radix_digits_len(n / radix, radix);
    }
}

/// Appends the base-`radix` digits of `v` to `out`.
fn append_digits(out: &mut String, v: u128, radix: u128)
    requires
        2 <= radix <= 16,
    ensures
        final(out)@ == old(out)@ + radix_digits(v as nat, radix as nat),
    decreases v,
{
    if v < radix {
        push_char(out, digit(v));
        assert(radix_digits(v as nat, radix as nat) == seq![digit_char(v as nat)]);
        assert(final(out)@ =~= old(out)@ + radix_digits(v as nat, radix as nat));
    } else {
        proof {
            lemma_div_decreases(v as int, radix as int);
        }
        append_digits(out, v / radix, radix);
        push_char(out, digit(v % radix));
        assert(final(out)@ =~= old(out)@ + radix_digits(v as nat, radix as nat));
    }
}

/// The decimal rendering of a signed integer, as `format!("{}", v)` gives.
pub fn i64_text(v: i64) -> (r: String)
    ensures
        r@ == decimal_text(v as int),
{
    let mut out = String::new();
    if v < 0 {
        push_char(&mut out, '-');
        let magnitude: u64 = if v == i64::MIN {
            9223372036854775808u64
        } else {
            (-v) as u64
        };
        append_digits(&mut out, magnitude as u128, 10);
    } else {
        append_digits(&mut out, v as u128, 10);
    }
    assert(out@ =~= decimal_text(v as int));
    out
}

/// The decimal rendering of an unsigned integer, as `format!("{}", v)`
/// gives.
pub fn u64_text(v: u64) -> (r: String)
    ensures
        r@ == decimal_text(v as int),
{
    let mut out = String::new();
    append_digits(&mut out, v as u128, 10);
    assert(out@ =~= decimal_text(v as int));
    out
}

/// The decimal rendering of `count + 1`, the one-based position that
/// follows `count` entries.
pub fn position_text(count: usize) -> (r: String)
    ensures
        r@ == decimal_text(count + 1),
{
    let mut out = String::new();
    append_digits(&mut out, count as u128 + 1, 10);
    assert(out@ =~= decimal_text(count + 1));
    out
}

/// The lower-case hexadecimal rendering of `v`, left-padded with `0` to at
/// least `width` characters, as `format!("{:0>w$x}", v)` gives.
pub fn hex_padded(v: u64, width: usize) -> (r: String)
    ensures
        r@ == hex_padded_text(v as nat, width as nat),
{
    let mut digits = String::new();
    append_digits(&mut digits, v as u128, 16);
    proof {
        lemma_radix_digits_len(v as nat, 16);
    }
    let n = digits.as_str().unicode_len();
    let mut out = String::new();
    if n < width {
        let mut i: usize = 0;
        while i < width - n
            invariant
                i <= width - n,
                n < width,
                out@ == Seq::new(i as nat, |k: int| '0'),
            decreases width - n - i,
        {
            push_char(&mut out, '0');
            i = i + 1;
            assert(out@ =~= Seq::new(i as nat, |k: int| '0'));
        }
    }
    out.append(digits.as_str());
    assert(out@ =~= hex_padded_text(v as nat, width as nat));
    out
}

/// The value of a digit character written by `digit_char`.
pub open spec fn digit_value(c: char) -> int {
    if (c as u32) < 58 {
        (c as u32) - 48
    } else {
        (c as u32) - 87
    }
}

/// The number that the digit characters `s` stand for in base `radix`.
pub open spec fn digits_value(s: Seq<char>, radix: nat) -> int
    decreases s.len(),
{
    if s.len() == 0 {
        0
    } else {
        digits_value(s.drop_last(), radix) * radix + digit_value(s.last())
    }
}

/// Writing a number in base `radix` loses nothing: its digits stand for
/// the number again, and only `0` itself starts with the digit `0`.
pub proof fn lemma_radix_digits_value(n: nat, radix: nat)
    requires
        2 <= radix <= 16,
    ensures
        digits_value(radix_digits(n, radix), radix) == n,
        radix_digits(n, radix)[0] == '0' ==> n == 0,
    decreases n,
{
    if n < radix {
        assert(radix_digits(n, radix).drop_last() =~= Seq::<char>::empty());
        let d = radix_digits(n, radix);
        assert(digit_value(digit_char(n)) == n);
        assert(digits_value(d.drop_last(), radix) == 0);
        assert(digits_value(d.drop_last(), radix) * radix == 0) by (nonlinear_arith)
            requires
                digits_value(d.drop_last(), radix) == 0,
        ;
    } else {
        lemma_div_decreases(n as int, radix as int);
        lemma_radix_digits_value(n / radix, radix);
        lemma_radix_digits_len(n / radix, radix);
        lemma_fundamental_div_mod(n as int, radix as int);
        let d = radix_digits(n, radix);
        assert(d.drop_last() =~= radix_digits(n / radix, radix));
        assert(d[0] == radix_digits(n / radix, radix)[0]);
        let q = n / radix;
        let r = n % radix;
        assert(0 <= r < radix) by {
            lemma_mod_bound(n as int, radix as int);
        }
        assert(digit_value(d.last()) == r);
        assert(q * radix + r == n) by (nonlinear_arith)
            requires
                n == radix * q + r,
        ;
        assert(digits_value(d.drop_last(), radix) == q);
        assert(digits_value(d, radix) == digits_value(d.drop_last(), radix) * radix + digit_value(
            d.last(),
        ));
        if d[0] == '0' {
            assert(n / radix == 0);
        }
    }
}

/// Leading zeros do not change the number that digits stand for.
pub proof fn lemma_leading_zeros(k: nat, s: Seq<char>, radix: nat)
    ensures
        digits_value(Seq::new(k, |i: int| '0') + s, radix) == digits_value(s, radix),
    decreases s.len() + k,
{
    let z = Seq::new(k, |i: int| '0');
    if s.len() == 0 {
        if k > 0 {
            let z1 = Seq::new((k - 1) as nat, |i: int| '0');
            assert(z + s =~= z);
            assert(z.drop_last() =~= z1 + Seq::<char>::empty());
            lemma_leading_zeros((k - 1) as nat, Seq::<char>::empty(), radix);
            assert(z1 + Seq::<char>::empty() =~= z1);
        } else {
            assert(z + s =~= s);
        }
    } else {
        assert((z + s).drop_last() =~= z + s.drop_last());
        lemma_leading_zeros(k, s.drop_last(), radix);
    }
}

/// The padded hexadecimal rendering of `v` stands for `v` and is at least
/// `width` characters long.
pub proof fn lemma_hex_padded_value(v: nat, width: nat)
    ensures
        digits_value(hex_padded_text(v, width), 16) == v,
        hex_padded_text(v, width).len() >= width,
{
    lemma_radix_digits_value(v, 16);
    let d = radix_digits(v, 16);
    if d.len() < width {
        lemma_leading_zeros((width - d.len()) as nat, d, 16);
    }
}

/// The decimal rendering of `v` is a minus sign exactly when `v` is
/// negative, followed by digits that stand for the magnitude of `v`, with
/// no leading zero unless `v` is zero.
pub proof fn lemma_decimal_text_value(v: int)
    ensures
        v < 0 ==> decimal_text(v)[0] == '-',
        v < 0 ==> digits_value(decimal_text(v).drop_first(), 10) == -v,
        v < 0 ==> decimal_text(v)[1] != '0',
        v >= 0 ==> digits_value(decimal_text(v), 10) == v,
        v >= 0 ==> decimal_text(v)[0] != '-',
        v > 0 ==> decimal_text(v)[0] != '0',
{
    if v < 0 {
        lemma_radix_digits_value((-v) as nat, 10);
        lemma_radix_digits_len((-v) as nat, 10);
        assert(decimal_text(v).drop_first() =~= radix_digits((-v) as nat, 10));
    } else {
        lemma_radix_digits_value(v as nat, 10);
        lemma_radix_digits_len(v as nat, 10);
        lemma_radix_digits_chars(v as nat, 10);
    }
}

/// Every character of a base-`radix` rendering is a digit below `radix`.
pub proof fn lemma_radix_digits_chars(n: nat, radix: nat)
    requires
        2 <= radix <= 16,
    ensures
        forall|i: int|
            0 <= i < radix_digits(n, radix).len() ==> {
                let c = #[trigger] radix_digits(n, radix)[i];
                (48 <= (c as u32) <= 57 || 97 <= (c as u32) <= 102) && digit_value(c) < radix
            },
    decreases n,
{
    if n >= radix {
        lemma_div_decreases(n as int, radix as int);
        lemma_radix_digits_chars(n / radix, radix);
        lemma_mod_bound(n as int, radix as int);
        let d = radix_digits(n, radix);
        assert forall|i: int| 0 <= i < d.len() implies {
            let c = #[trigger] d[i];
            (48 <= (c as u32) <= 57 || 97 <= (c as u32) <= 102) && digit_value(c) < radix
        } by {
            if i < d.len() - 1 {
                assert(d[i] == radix_digits(n / radix, radix)[i]);
            }
        }
    }
}

/// The padded hexadecimal rendering is exactly `width` characters when the
/// digits are fewer, else just the digits, and only its padding is zeros
/// in front of the first significant digit.
pub proof fn lemma_hex_padded_len(v: nat, width: nat)
    ensures
        hex_padded_text(v, width).len() == if radix_digits(v, 16).len() < width {
            width
        } else {
            radix_digits(v, 16).len()
        },
        forall|i: int|
            0 <= i < hex_padded_text(v, width).len() ==> {
                let c = #[trigger] hex_padded_text(v, width)[i];
                48 <= (c as u32) <= 57 || 97 <= (c as u32) <= 102
            },
{
    lemma_radix_digits_chars(v, 16);
    let d = radix_digits(v, 16);
    let h = hex_padded_text(v, width);
    if d.len() < width {
        let z = Seq::new((width - d.len()) as nat, |i: int| '0');
        assert forall|i: int| 0 <= i < h.len() implies {
            let c = #[trigger] h[i];
            48 <= (c as u32) <= 57 || 97 <= (c as u32) <= 102
        } by {
            if i < z.len() {
                assert(h[i] == '0');
            } else {
                assert(h[i] == d[i - z.len()]);
            }
        }
    }
}

/// Whether `c` has the Unicode `White_Space` property, the whitespace that
/// `str::trim` removes.
pub open spec fn is_white_space(c: char) -> bool {
    let v = c as u32;
    ||| 0x9 <= v <= 0xD
    ||| v == 0x20
    ||| v == 0x85
    ||| v == 0xA0
    ||| v == 0x1680
    ||| 0x2000 <= v <= 0x200A
    ||| v == 0x2028
    ||| v == 0x2029
    ||| v == 0x202F
    ||| v == 0x205F
    ||| v == 0x3000
}

/// `s` without its leading whitespace.
pub open spec fn trim_start_text(s: Seq<char>) -> Seq<char>
    decreases s.len(),
{
    if s.len() > 0 && is_white_space(s[0]) {
        trim_start_text(s.drop_first())
    } else {
        s
    }
}

/// `s` without its trailing whitespace.
pub open spec fn trim_end_text(s: Seq<char>) -> Seq<char>
    decreases s.len(),
{
    if s.len() > 0 && is_white_space(s.last()) {
        trim_end_text(s.drop_last())
    } else {
        s
    }
}

/// `s` without leading and trailing whitespace.
pub open spec fn trim_text(s: Seq<char>) -> Seq<char> {
    trim_end_text(trim_start_text(s))
}

/// Trusted: std's `str::trim`, which removes leading and trailing
/// characters with the Unicode `White_Space` property.
#[verifier::external_body]
pub(crate) fn trim(s: &str) -> (r: &str)
    ensures
        r@ == trim_text(s@),
{
    s.trim()
}

/// Trusted: std's `str::from_utf8`, which accepts exactly the valid UTF-8
/// byte sequences and yields the characters they encode.
#[verifier::external_body]
pub(crate) fn utf8_text(b: &[u8]) -> (r: Option<&str>)
    ensures
        r is Some <==> valid_utf8(b@),
        r matches Some(t) ==> t@ == decode_utf8(b@),
{
    std::str::from_utf8(b).ok()
}

/// Trusted: std's `==` on string slices, which compares the characters.
#[verifier::external_body]
pub(crate) fn str_eq(a: &str, b: &str) -> (r: bool)
    ensures
        r == (a@ == b@),
{
    a == b
}

/// A nonempty character sequence has a nonempty UTF-8 encoding.
pub proof fn lemma_encoding_nonempty(s: Seq<char>)
    requires
        s.len() > 0,
    ensures
        encode_utf8(s).len() > 0,
{
}

} // verus!
