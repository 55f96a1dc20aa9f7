use vstd::prelude::*;

verus! {

/// The ASCII decimal digits of `n`, most significant first, without leading zeros ("0" for 0).
pub open spec fn decimal_digits(n: nat) -> Seq<u8>
    decreases n,
{
    if n < 10 {
        seq![(48 + n) as u8]
    } else {
        decimal_digits(n / 10).push((48 + n % 10) as u8)
    }
}

/// An ASCII decimal digit.
pub open spec fn is_digit(b: u8) -> bool {
    48 <= b <= 57
}

/// The number of leading ASCII decimal digits of `s`.
pub open spec fn digit_run(s: Seq<u8>) -> nat
    decreases s.len(),
{
    if s.len() == 0 || !is_digit(s[0]) {
        0
    } else {
        1 + digit_run(s.drop_first())
    }
}

/// The value of a sequence of decimal digits.
pub open spec fn decimal_value(s: Seq<u8>) -> nat
    decreases s.len(),
{
    if s.len() == 0 {
        0
    } else {
        decimal_value(s.drop_last()) * 10 + (s.last() - 48) as nat
    }
}

/// The value of an ASCII hexadecimal digit, if it is one.
pub open spec fn hex_digit(b: u8) -> Option<nat> {
    if 48 <= b <= 57 {
        Some((b - 48) as nat)
    } else if 97 <= b <= 102 {
        Some((b - 97 + 10) as nat)
    } else if 65 <= b <= 70 {
        Some((b - 65 + 10) as nat)
    } else {
        None
    }
}

/// The number of leading hexadecimal digits of `s`.
pub open spec fn hex_run(s: Seq<u8>) -> nat
    decreases s.len(),
{
    if s.len() == 0 || hex_digit(s[0]) is None {
        0
    } else {
        1 + hex_run(s.drop_first())
    }
}

/// The value of a sequence of hexadecimal digits.
pub open spec fn hex_value(s: Seq<u8>) -> nat
    decreases s.len(),
{
    if s.len() == 0 {
        0
    } else {
        hex_value(s.drop_last()) * 16 + hex_digit(s.last())->Some_0
    }
}

/// Where the hexadecimal digits start: after a "0x" or "0X" prefix if there is one.
pub open spec fn hex_start(s: Seq<u8>) -> int {
    if s.len() >= 2 && s[0] == 48 && (s[1] == 120 || s[1] == 88) { 2 } else { 0 }
}

pub open spec fn pow10(k: nat) -> nat
    decreases k,
{
    if k == 0 { 1 } else { 10 * pow10((k - 1) as nat) }
}

proof fn lemma_decimal_digits_len(n: nat, k: nat)
    requires
        k >= 1,
        n < pow10(k),
    ensures
        decimal_digits(n).len() <= k,
    decreases k,
{
    if n >= 10 {
        assert(k >= 2) by {
            if k == 1 {
                assert(pow10(1) == 10) by {
                    assert(pow10(0) == 1);
                }
            }
        }
        assert(n / 10 < pow10((k - 1) as nat));
        lemma_decimal_digits_len(n / 10, (k - 1) as nat);
    }
}

/// A positive number's decimal digits do not start with a zero.
proof fn lemma_decimal_digits_lead(n: nat)
    requires
        n > 0,
    ensures
        decimal_digits(n)[0] != 48,
    decreases n,
{
    if n >= 10 {
        lemma_decimal_digits_lead(n / 10);
        assert(decimal_digits(n)[0] == decimal_digits(n / 10)[0]);
    }
}

/// Formats `n` in decimal into the end of `buf` and returns the digits written: one to twenty
/// ASCII digits, without a leading zero unless `n` is 0. The bytes of `buf` before them are left
/// as they were.
pub fn fmt_u64(n: u64, buf: &mut [u8; 20]) -> (s: &[u8])
    ensures
        s@ == decimal_digits(n as nat),
        1 <= s@.len() <= 20,
        forall|k: int| 0 <= k < s@.len() ==> is_digit(#[trigger] s@[k]),
        s@.len() > 1 ==> s@[0] != 48,
        final(buf)@ == old(buf)@.subrange(0, 20 - s@.len()) + s@,
{
    proof {
        lemma_decimal_digits_facts(n as nat);
        if n > 0 {
            lemma_decimal_digits_lead(n as nat);
        }
    }
    if n == 0 {
        buf[19] = 48;
        let s = &buf[19..20];
        assert(s@ =~= decimal_digits(0));
        assert(buf@ =~= old(buf)@.subrange(0, 19) + s@);
        return s;
    }
    proof {
        reveal_with_fuel(pow10, 21);
        assert(pow10(20) == 100_000_000_000_000_000_000);
        lemma_decimal_digits_len(n as nat, 20);
    }
    let mut m = n;
    let mut pos: usize = 20;
    while m > 0 && pos > 0
        invariant
            pos <= 20,
            buf@.subrange(0, pos as int) == old(buf)@.subrange(0, pos as int),
            m > 0 ==> decimal_digits(n as nat) =~= decimal_digits(m as nat) + buf@.subrange(pos as int, 20),
            m == 0 ==> decimal_digits(n as nat) =~= buf@.subrange(pos as int, 20),
            m > 0 ==> decimal_digits(m as nat).len() <= pos,
        decreases m,
    {
        let ghost tail = buf@.subrange(pos as int, 20);
        pos -= 1;
        let d = (m % 10) as u8;
        buf[pos] = 48 + d;
        assert(buf@.subrange(pos as int, 20) =~= seq![(48 + m % 10) as u8] + tail);
        m = m / 10;
    }
    let s = &buf[pos..20];
    assert(buf@ =~= old(buf)@.subrange(0, pos as int) + s@);
    s
}

proof fn lemma_digit_run_char(s: Seq<u8>, i: int)
    requires
        0 <= i <= s.len(),
        forall|k: int| 0 <= k < i ==> is_digit(#[trigger] s[k]),
        i == s.len() || !is_digit(s[i]),
    ensures
        digit_run(s) == i,
    decreases i,
{
    if i > 0 {
        lemma_digit_run_char(s.drop_first(), i - 1);
    }
}

proof fn lemma_digit_run_stop(s: Seq<u8>)
    ensures
        digit_run(s) <= s.len(),
        digit_run(s) < s.len() ==> !is_digit(s[digit_run(s) as int]),
    decreases s.len(),
{
    if s.len() > 0 && is_digit(s[0]) {
        lemma_digit_run_stop(s.drop_first());
    }
}

proof fn lemma_digit_run_prefix(s: Seq<u8>, k: int)
    requires
        0 <= k < digit_run(s),
    ensures
        is_digit(s[k]),
        k < s.len(),
    decreases s.len(),
{
    if k > 0 {
        lemma_digit_run_prefix(s.drop_first(), k - 1);
    }
}

proof fn lemma_decimal_value_step(s: Seq<u8>, i: int)
    requires
        0 <= i < s.len(),
    ensures
        decimal_value(s.take(i + 1)) == decimal_value(s.take(i)) * 10 + (s[i] - 48) as nat,
{
    assert(s.take(i + 1).drop_last() =~= s.take(i));
}

proof fn lemma_decimal_value_monotone(s: Seq<u8>, i: int, j: int)
    requires
        0 <= i <= j <= s.len(),
        forall|k: int| 0 <= k < j ==> is_digit(#[trigger] s[k]),
    ensures
        decimal_value(s.take(i)) <= decimal_value(s.take(j)),
    decreases j - i,
{
    if i < j {
        lemma_decimal_value_monotone(s, i, j - 1);
        lemma_decimal_value_step(s, j - 1);
    }
}

/// The value of the decimal digits at the start of `buf` (0 if it starts with none), when it
/// fits in `u64`.
pub fn parse_decimal_u64(buf: &[u8]) -> (v: u64)
    requires
        decimal_value(buf@.take(digit_run(buf@) as int)) <= u64::MAX,
    ensures
        v == decimal_value(buf@.take(digit_run(buf@) as int)),
{
    let ghost s = buf@;
    proof {
        assert forall|k: int| 0 <= k < digit_run(s) implies is_digit(#[trigger] s[k]) by {
            lemma_digit_run_prefix(s, k);
        }
        assert(digit_run(s) <= s.len()) by {
            if digit_run(s) > 0 {
                lemma_digit_run_prefix(s, digit_run(s) - 1);
            }
        }
    }
    let mut val: u64 = 0;
    let mut i: usize = 0;
    while i < buf.len() && 48 <= buf[i] && buf[i] <= 57
        invariant
            s == buf@,
            i <= s.len(),
            forall|k: int| 0 <= k < i ==> is_digit(#[trigger] s[k]),
            i <= digit_run(s),
            digit_run(s) <= s.len(),
            forall|k: int| 0 <= k < digit_run(s) ==> is_digit(#[trigger] s[k]),
            val == decimal_value(s.take(i as int)),
            decimal_value(s.take(digit_run(s) as int)) <= u64::MAX,
        decreases s.len() - i,
    {
        proof {
            lemma_digit_run_stop(s);
            lemma_decimal_value_step(s, i as int);
            lemma_decimal_value_monotone(s, i as int + 1, digit_run(s) as int);
        }
        val = val * 10 + (buf[i] - 48) as u64;
        i += 1;
    }
    proof {
        lemma_digit_run_char(s, i as int);
    }
    val
}

proof fn lemma_hex_run_char(s: Seq<u8>, i: int)
    requires
        0 <= i <= s.len(),
        forall|k: int| 0 <= k < i ==> #[trigger] hex_digit(s[k]) is Some,
        i == s.len() || hex_digit(s[i]) is None,
    ensures
        hex_run(s) == i,
    decreases i,
{
    if i > 0 {
        lemma_hex_run_char(s.drop_first(), i - 1);
    }
}

/// The hexadecimal number at the start of `buf`, after an optional "0x"/"0X" prefix, reduced
/// modulo 2^16 (digits beyond the fourth shift the older ones out).
pub fn parse_hex_u16_pub(buf: &[u8]) -> (v: u16)
    ensures
        ({
            let digits = buf@.subrange(hex_start(buf@), buf@.len() as int);
            v == hex_value(digits.take(hex_run(digits) as int)) % 0x10000
        }),
{
    let ghost s = buf@;
    let start: usize = if buf.len() >= 2 && buf[0] == 48 && (buf[1] == 120 || buf[1] == 88) {
        2
    } else {
        0
    };
    let ghost digits = s.subrange(start as int, s.len() as int);
    let mut val: u16 = 0;
    let mut i: usize = start;
    loop
        invariant
            s == buf@,
            start as int == hex_start(s),
            digits == s.subrange(start as int, s.len() as int),
            start <= i <= s.len(),
            forall|k: int| 0 <= k < i - start ==> #[trigger] hex_digit(digits[k]) is Some,
            val == hex_value(digits.take(i - start)) % 0x10000,
        ensures
            start <= i <= s.len(),
            forall|k: int| 0 <= k < i - start ==> #[trigger] hex_digit(digits[k]) is Some,
            i == s.len() || hex_digit(s[i as int]) is None,
            val == hex_value(digits.take(i - start)) % 0x10000,
        decreases s.len() - i,
    {
        if i >= buf.len() {
            break;
        }
        let c = buf[i];
        let digit: u8 = if 48 <= c && c <= 57 {
            c - 48
        } else if 97 <= c && c <= 102 {
            c - 97 + 10
        } else if 65 <= c && c <= 70 {
            c - 65 + 10
        } else {
            break;
        };
        proof {
            let j = i - start;
            assert(digits[j] == c);
            assert(digits.take(j + 1).drop_last() =~= digits.take(j));
            let h = hex_value(digits.take(j));
            vstd::arithmetic::div_mod::lemma_mul_mod_noop_left(h as int, 16, 0x10000);
            vstd::arithmetic::div_mod::lemma_add_mod_noop((h * 16) as int, digit as int, 0x10000);
            vstd::arithmetic::div_mod::lemma_add_mod_noop(((h % 0x10000) * 16) as int, digit as int, 0x10000);
        }
        val = (((val as u32) * 16 + digit as u32) % 0x10000) as u16;
        i += 1;
    }
    proof {
        let j = i - start;
        assert forall|k: int| 0 <= k < j implies #[trigger] hex_digit(digits[k]) is Some by {}
        lemma_hex_run_char(digits, j);
    }
    val
}

proof fn lemma_decimal_digits_facts(n: nat)
    ensures
        forall|k: int| 0 <= k < decimal_digits(n).len() ==> is_digit(#[trigger] decimal_digits(n)[k]),
        decimal_value(decimal_digits(n)) == n,
    decreases n,
{
    if n >= 10 {
        lemma_decimal_digits_facts(n / 10);
        let s = decimal_digits(n);
        assert(s.drop_last() =~= decimal_digits(n / 10));
        assert(s.last() == (48 + n % 10) as u8);
        assert((n / 10) * 10 + n % 10 == n);
    } else {
        let s = decimal_digits(n);
        assert(s.drop_last() =~= Seq::<u8>::empty());
        assert(decimal_value(s.drop_last()) == 0);
        assert(s.last() == (48 + n) as u8);
    }
}

/// Reading back the decimal text that formatting produces gives the number again: every byte
/// of it is a digit, so the parse takes all of it.
pub proof fn law_parse_undoes_format(n: nat)
    ensures
        digit_run(decimal_digits(n)) == decimal_digits(n).len(),
        decimal_value(decimal_digits(n).take(digit_run(decimal_digits(n)) as int)) == n,
{
    let s = decimal_digits(n);
    lemma_decimal_digits_facts(n);
    lemma_digit_run_char(s, s.len() as int);
    assert(s.take(s.len() as int) =~= s);
}

} // verus!
