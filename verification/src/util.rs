//! Small helpers shared by the modules.

use vstd::prelude::*;
use vstd::string::StringExecFns;

verus! {

/// The character of a decimal digit.
pub open spec fn digit_of(d: int) -> char {
    ((48 + d) as u8) as char
}

/// A number in decimal, without leading zeros.
pub open spec fn decimal_of(n: nat) -> Seq<char>
    decreases n,
{
    if n < 10 {
        seq![digit_of(n as int)]
    } else {
        decimal_of(n / 10).push(digit_of((n % 10) as int))
    }
}

fn digit_str(d: u64) -> (s: &'static str)
    requires
        d < 10,
    ensures
        s@ == seq![digit_of(d as int)],
{
    proof {
        reveal_strlit("0");
        reveal_strlit("1");
        reveal_strlit("2");
        reveal_strlit("3");
        reveal_strlit("4");
        reveal_strlit("5");
        reveal_strlit("6");
        reveal_strlit("7");
        reveal_strlit("8");
        reveal_strlit("9");
    }
    let s = if d == 0 {
        "0"
    } else if d == 1 {
        "1"
    } else if d == 2 {
        "2"
    } else if d == 3 {
        "3"
    } else if d == 4 {
        "4"
    } else if d == 5 {
        "5"
    } else if d == 6 {
        "6"
    } else if d == 7 {
        "7"
    } else if d == 8 {
        "8"
    } else {
        "9"
    };
    assert(s@ =~= seq![digit_of(d as int)]);
    s
}

/// Writes a number of up to 128 bits in decimal.
pub fn decimal_string_wide(n: u128) -> (s: String)
    ensures
        s@ == decimal_of(n as nat),
    decreases n,
{
    if n < 10 {
        digit_str(n as u64).to_owned()
    } else {
        let head = decimal_string_wide(n / 10);
        let s = head.concat(digit_str((n % 10) as u64));
        assert(s@ =~= decimal_of((n / 10) as nat).push(digit_of((n % 10) as int)));
        s
    }
}

/// Writes a number in decimal.
pub fn decimal_string(n: u64) -> (s: String)
    ensures
        s@ == decimal_of(n as nat),
{
    decimal_string_wide(n as u128)
}

/// The digits of `n`, with zeros in front up to `width` digits.
pub open spec fn padded_of(n: nat, width: nat) -> Seq<char>
    decreases width,
{
    if width == 0 {
        Seq::<char>::empty()
    } else {
        padded_of(n / 10, (width - 1) as nat).push(digit_of((n % 10) as int))
    }
}

/// The digits of a fraction of `width` digits, without the zeros at its end.
pub open spec fn trimmed_of(n: nat, width: nat) -> Seq<char>
    decreases width,
{
    if width == 0 || n == 0 {
        Seq::<char>::empty()
    } else if n % 10 == 0 {
        trimmed_of(n / 10, (width - 1) as nat)
    } else {
        padded_of(n, width)
    }
}

/// `value / scale` in decimal, as short as it can be written: the whole
/// part, and after a point the fraction in `width` digits less the zeros
/// at its end; no point where there is no fraction.
pub open spec fn fixed_point_of(value: nat, scale: nat, width: nat) -> Seq<char> {
    if value % scale == 0 {
        decimal_of(value / scale)
    } else {
        decimal_of(value / scale) + seq!['.'] + trimmed_of(value % scale, width)
    }
}

/// A signed number with a minus sign in front where it is negative.
pub open spec fn signed_of(negative: bool, text: Seq<char>) -> Seq<char> {
    if negative {
        seq!['-'] + text
    } else {
        text
    }
}

/// `magnitude / (step * modulus)` rounded to `width` decimals, halves
/// away from zero, where `modulus` is ten to the power of `width` and
/// `step` the weight of the last decimal: the whole part, a point, and
/// all `width` decimals.
pub open spec fn rounded_of(magnitude: nat, step: nat, modulus: nat, width: nat) -> Seq<char> {
    let rounded = (magnitude + step / 2) / step;
    decimal_of(rounded / modulus) + seq!['.'] + padded_of(rounded % modulus, width)
}

/// The digits of `n`, with zeros in front up to `width` digits.
pub fn padded(n: u128, width: u32) -> (s: String)
    ensures
        s@ == padded_of(n as nat, width as nat),
    decreases width,
{
    if width == 0 {
        String::new()
    } else {
        let head = padded(n / 10, width - 1);
        let s = head.concat(digit_str((n % 10) as u64));
        assert(s@ =~= padded_of((n / 10) as nat, (width - 1) as nat).push(
            digit_of((n % 10) as int),
        ));
        s
    }
}

fn trimmed(n: u128, width: u32) -> (s: String)
    ensures
        s@ == trimmed_of(n as nat, width as nat),
    decreases width,
{
    if width == 0 || n == 0 {
        String::new()
    } else if n % 10 == 0 {
        trimmed(n / 10, width - 1)
    } else {
        padded(n, width)
    }
}

/// Writes `value / scale` in decimal, the fraction in at most `width` digits.
pub fn fixed_point_string_wide(value: u128, scale: u128, width: u32) -> (s: String)
    requires
        scale > 0,
    ensures
        s@ == fixed_point_of(value as nat, scale as nat, width as nat),
{
    let whole = decimal_string_wide(value / scale);
    let fraction: u128 = value % scale;
    if fraction == 0 {
        whole
    } else {
        proof {
            reveal_strlit(".");
        }
        let s = whole.concat(".").concat(trimmed(fraction, width).as_str());
        assert(s@ =~= fixed_point_of(value as nat, scale as nat, width as nat));
        s
    }
}

/// Writes `value / scale` in decimal, the fraction in at most `width` digits.
pub fn fixed_point_string(value: u64, scale: u64, width: u32) -> (s: String)
    requires
        scale > 0,
    ensures
        s@ == fixed_point_of(value as nat, scale as nat, width as nat),
{
    fixed_point_string_wide(value as u128, scale as u128, width)
}

/// Puts a minus sign in front of `text` if `negative`.
pub fn signed(negative: bool, text: String) -> (s: String)
    ensures
        s@ == signed_of(negative, text@),
{
    if negative {
        proof {
            reveal_strlit("-");
        }
        let s = "-".to_owned().concat(text.as_str());
        assert(s@ =~= seq!['-'] + text@);
        s
    } else {
        text
    }
}

/// Writes `magnitude / (step * modulus)` with exactly `width` decimals.
pub fn rounded_string(magnitude: u128, step: u128, modulus: u128, width: u32) -> (s: String)
    requires
        step > 0,
        modulus > 0,
        magnitude + step / 2 <= u128::MAX,
    ensures
        s@ == rounded_of(magnitude as nat, step as nat, modulus as nat, width as nat),
{
    proof {
        reveal_strlit(".");
    }
    let rounded: u128 = (magnitude + step / 2) / step;
    let s = decimal_string_wide(rounded / modulus).concat(".").concat(
        padded(rounded % modulus, width).as_str(),
    );
    assert(s@ =~= rounded_of(magnitude as nat, step as nat, modulus as nat, width as nat));
    s
}

/// The size of a number without its sign.
pub fn magnitude(x: i128) -> (m: u128)
    ensures
        m == if x < 0 { -x } else { x as int },
{
    if x >= 0 {
        x as u128
    } else {
        (-(x + 1)) as u128 + 1
    }
}

/// "true" or "false".
pub open spec fn bool_text_of(b: bool) -> Seq<char> {
    if b {
        "true"@
    } else {
        "false"@
    }
}

pub fn bool_string(b: bool) -> (s: String)
    ensures
        s@ == bool_text_of(b),
{
    if b {
        "true".to_owned()
    } else {
        "false".to_owned()
    }
}

/// What has been read of a decimal number.
pub struct DecimalScan {
    /// Nothing read so far was out of place.
    pub valid: bool,
    /// The point has been read.
    pub seen_point: bool,
    /// How many digits came before the point.
    pub whole_digits: nat,
    /// How many digits after the point were taken into the value.
    pub fraction_digits: nat,
    /// The digits taken so far, read as one number.
    pub value: nat,
}

/// Reads one more character of a decimal number in which `width` digits
/// after the point count. A digit before the point, or one of the first
/// `width` after it, goes into the value; later digits are dropped. A
/// second point, any other character, or a value beyond 64 bits ends the
/// reading for good.
pub open spec fn scan_step(state: DecimalScan, c: char, width: nat) -> DecimalScan {
    if !state.valid {
        state
    } else if c == '.' {
        DecimalScan { valid: !state.seen_point, seen_point: true, ..state }
    } else if '0' <= c && c <= '9' {
        let digit = (c as u8 - 48) as nat;
        if state.seen_point && state.fraction_digits >= width {
            state
        } else if state.value * 10 + digit > u64::MAX {
            DecimalScan { valid: false, ..state }
        } else if state.seen_point {
            DecimalScan {
                fraction_digits: state.fraction_digits + 1,
                value: state.value * 10 + digit,
                ..state
            }
        } else {
            DecimalScan {
                whole_digits: state.whole_digits + 1,
                value: state.value * 10 + digit,
                ..state
            }
        }
    } else {
        DecimalScan { valid: false, ..state }
    }
}

/// What has been read after the first `k` characters of `s`.
pub open spec fn scanned(s: Seq<char>, k: int, width: nat) -> DecimalScan
    decreases k,
{
    if k <= 0 {
        DecimalScan { valid: true, seen_point: false, whole_digits: 0, fraction_digits: 0, value: 0 }
    } else {
        scan_step(scanned(s, k - 1, width), s[k - 1], width)
    }
}

/// `value` with `zeros` zeros behind it, unless that is beyond 64 bits.
pub open spec fn with_zeros(value: nat, zeros: nat) -> Option<nat>
    decreases zeros,
{
    if zeros == 0 {
        Some(value)
    } else if value * 10 > u64::MAX {
        None
    } else {
        with_zeros(value * 10, (zeros - 1) as nat)
    }
}

/// The number that a plain decimal string stands for, in units of ten to
/// the power of minus `width`, rounded down: digits, then perhaps a point
/// and more digits. `None` for any other string and for a number beyond
/// 64 bits.
pub open spec fn decimal_value(s: Seq<char>, width: nat) -> Option<nat> {
    let end = scanned(s, s.len() as int, width);
    if end.valid && end.whole_digits > 0 {
        with_zeros(end.value, (width - end.fraction_digits) as nat)
    } else {
        None
    }
}

/// Reads a plain decimal number of the wire into fixed point: `"0.001"`
/// with a width of 8 is 100000.
pub fn parse_decimal(s: &str, width: u32) -> (r: Option<u64>)
    ensures
        match r {
            Some(v) => decimal_value(s@, width as nat) == Some(v as nat),
            None => decimal_value(s@, width as nat) is None,
        },
{
    if !s.is_ascii() {
        proof {
            lemma_scan_rejects_other_characters(s@, width as nat);
        }
        return None;
    }
    proof {
        vstd::string::is_ascii_spec_bytes(s);
    }
    let bytes = s.as_bytes();
    let n: usize = bytes.len();
    let mut seen_point: bool = false;
    let mut whole_digits: usize = 0;
    let mut fraction_digits: u32 = 0;
    let mut value: u64 = 0;
    let mut i: usize = 0;
    while i < n
        invariant
            i <= n,
            n == s@.len(),
            bytes@.len() == n,
            forall|k: int| 0 <= k < n ==> bytes@[k] == #[trigger] s@[k] as u8,
            forall|k: int| 0 <= k < n ==> '\0' <= #[trigger] s@[k] <= '\u{7f}',
            whole_digits <= i,
            fraction_digits <= width,
            scanned(s@, i as int, width as nat) == (DecimalScan {
                valid: true,
                seen_point,
                whole_digits: whole_digits as nat,
                fraction_digits: fraction_digits as nat,
                value: value as nat,
            }),
        decreases n - i,
    {
        let b: u8 = bytes[i];
        let ghost c = s@[i as int];
        assert(b == c as u8);
        assert('\0' <= c <= '\u{7f}');
        assert(c as u32 <= 127);
        assert(b == c as u32);
        let ghost before = scanned(s@, i as int, width as nat);
        assert(scanned(s@, i + 1, width as nat) == scan_step(before, c, width as nat));
        if b == 46 {
            assert(c == '.');
            if seen_point {
                proof {
                    lemma_scan_stays_invalid(s@, i + 1, n as int, width as nat);
                }
                return None;
            }
            seen_point = true;
        } else if b >= 48 && b <= 57 {
            assert('0' <= c && c <= '9');
            let digit: u64 = (b - 48) as u64;
            if seen_point && fraction_digits >= width {
            } else if value > (u64::MAX - digit) / 10 {
                proof {
                    lemma_scan_stays_invalid(s@, i + 1, n as int, width as nat);
                }
                return None;
            } else {
                value = value * 10 + digit;
                if seen_point {
                    fraction_digits = fraction_digits + 1;
                } else {
                    whole_digits = whole_digits + 1;
                }
            }
        } else {
            assert(c != '.' && !('0' <= c && c <= '9'));
            proof {
                lemma_scan_stays_invalid(s@, i + 1, n as int, width as nat);
            }
            return None;
        }
        i += 1;
    }
    if whole_digits == 0 {
        return None;
    }
    let mut zeros: u32 = width - fraction_digits;
    while zeros > 0
        invariant
            with_zeros(value as nat, zeros as nat) == decimal_value(s@, width as nat),
        decreases zeros,
    {
        if value > u64::MAX / 10 {
            return None;
        }
        value = value * 10;
        zeros = zeros - 1;
    }
    Some(value)
}

proof fn lemma_scan_stays_invalid(s: Seq<char>, k: int, n: int, width: nat)
    requires
        0 <= k <= n,
        !scanned(s, k, width).valid,
    ensures
        !scanned(s, n, width).valid,
    decreases n - k,
{
    if k < n {
        lemma_scan_stays_invalid(s, k + 1, n, width);
    }
}

proof fn lemma_scan_rejects_other_characters(s: Seq<char>, width: nat)
    requires
        !vstd::utf8::is_ascii_chars(s),
    ensures
        !scanned(s, s.len() as int, width).valid,
{
    let k = choose|k: int| 0 <= k < s.len() && !('\0' <= #[trigger] s[k] <= '\u{7f}');
    let c = s[k];
    assert(c != '.' && !('0' <= c && c <= '9'));
    assert(scanned(s, k + 1, width) == scan_step(scanned(s, k, width), c, width));
    assert(!scanned(s, k + 1, width).valid);
    lemma_scan_stays_invalid(s, k + 1, s.len() as int, width);
}

/// Whether two strings hold the same characters.
pub fn str_eq(a: &str, b: &str) -> (same: bool)
    ensures
        same == (a@ == b@),
{
    let x = a.to_owned();
    let y = b.to_owned();
    x == y
}

} // verus!
