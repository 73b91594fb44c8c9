//! Terrain-seed sanitization.
//!
//! Free-form text from the settings surface is turned into a valid
//! 32-bit terrain seed: non-digit characters are removed, the digit
//! string is truncated to its first nine digits (so the value always
//! fits in 32 bits), and the remainder is read as a decimal number.
//! Empty input draws a fresh random value and sanitizes its decimal
//! form the same way. No input ever faults: text without a single
//! digit yields seed zero.

use vstd::prelude::*;
use vstd::arithmetic::div_mod::lemma_fundamental_div_mod;

verus! {

/// Largest value a nine-digit decimal string can carry.
pub const MAX_NINE_DIGIT_SEED: u32 = 999_999_999;

/// `c` is one of the decimal digits '0' ..= '9'.
pub open spec fn is_dec_digit(c: char) -> bool {
    48 <= c as int <= 57
}

/// Numeric value of a decimal digit character.
pub open spec fn digit_val(c: char) -> nat {
    (c as int - 48) as nat
}

/// The decimal digit character for a value below ten.
pub open spec fn digit_char(d: nat) -> char {
    (48 + d) as char
}

/// The subsequence of decimal digit characters of `s`, in order.
pub open spec fn digits_of(s: Seq<char>) -> Seq<char>
    decreases s.len(),
{
    if s.len() == 0 {
        Seq::empty()
    } else if is_dec_digit(s.last()) {
        digits_of(s.drop_last()).push(s.last())
    } else {
        digits_of(s.drop_last())
    }
}

/// The first nine characters of `s`, or all of `s` if it is shorter.
pub open spec fn first_nine(s: Seq<char>) -> Seq<char> {
    if s.len() <= 9 {
        s
    } else {
        s.take(9)
    }
}

/// The value of a digit string read as a decimal number.
pub open spec fn dec_val(s: Seq<char>) -> nat
    decreases s.len(),
{
    if s.len() == 0 {
        0
    } else {
        dec_val(s.drop_last()) * 10 + digit_val(s.last())
    }
}

/// The seed committed for the text `s`: its digits, truncated to the
/// first nine, read as a decimal number.
pub open spec fn seed_of_text(s: Seq<char>) -> nat {
    dec_val(first_nine(digits_of(s)))
}

/// The decimal form of `n`, most significant digit first.
pub open spec fn dec_digits(n: nat) -> Seq<char>
    decreases n,
{
    if n < 10 {
        seq![digit_char(n)]
    } else {
        dec_digits(n / 10).push(digit_char(n % 10))
    }
}

/// Ten to the power `n`.
pub open spec fn pow10(n: nat) -> nat
    decreases n,
{
    if n == 0 {
        1
    } else {
        10 * pow10((n - 1) as nat)
    }
}

proof fn lemma_pow10_pos(n: nat)
    ensures
        pow10(n) >= 1,
    decreases n,
{
    if n > 0 {
        lemma_pow10_pos((n - 1) as nat);
    }
}

proof fn lemma_pow10_increases(a: nat, b: nat)
    requires
        a <= b,
    ensures
        pow10(a) <= pow10(b),
    decreases b,
{
    if a < b {
        lemma_pow10_increases(a, (b - 1) as nat);
    }
}

/// A string of `n` digits carries a value below ten to the `n`.
proof fn lemma_dec_val_bound(s: Seq<char>)
    requires
        forall|i: int| 0 <= i < s.len() ==> is_dec_digit(s[i]),
    ensures
        dec_val(s) < pow10(s.len()),
    decreases s.len(),
{
    if s.len() > 0 {
        lemma_dec_val_bound(s.drop_last());
    }
}

/// Filtering keeps only digit characters.
proof fn lemma_digits_of_all_digits(s: Seq<char>)
    ensures
        forall|i: int| 0 <= i < digits_of(s).len() ==> is_dec_digit(digits_of(s)[i]),
    decreases s.len(),
{
    if s.len() > 0 {
        lemma_digits_of_all_digits(s.drop_last());
        let d = digits_of(s.drop_last());
        assert forall|i: int| 0 <= i < digits_of(s).len() implies is_dec_digit(
            digits_of(s)[i],
        ) by {
            if is_dec_digit(s.last()) && i == d.len() {
                assert(digits_of(s)[i] == s.last());
            } else {
                assert(digits_of(s)[i] == d[i]);
            }
        }
    }
}

/// Filtering a string that is already all digits changes nothing.
proof fn lemma_digits_of_identity(s: Seq<char>)
    requires
        forall|i: int| 0 <= i < s.len() ==> is_dec_digit(s[i]),
    ensures
        digits_of(s) == s,
    decreases s.len(),
{
    if s.len() > 0 {
        lemma_digits_of_identity(s.drop_last());
        assert(digits_of(s.drop_last()).push(s.last()) =~= s);
    } else {
        assert(digits_of(s) =~= s);
    }
}

/// Extending the scanned prefix by one character extends its digit
/// subsequence by that character exactly when it is a digit.
proof fn lemma_digits_of_take_step(s: Seq<char>, i: int)
    requires
        0 <= i < s.len(),
    ensures
        is_dec_digit(s[i]) ==> digits_of(s.take(i + 1)) == digits_of(s.take(i)).push(s[i]),
        !is_dec_digit(s[i]) ==> digits_of(s.take(i + 1)) == digits_of(s.take(i)),
{
    let t = s.take(i + 1);
    assert(t.last() == s[i]);
    assert(t.drop_last() =~= s.take(i));
}

/// The decimal form of `n` is made of digit characters only.
proof fn lemma_dec_digits_all_digits(n: nat)
    ensures
        forall|i: int| 0 <= i < dec_digits(n).len() ==> is_dec_digit(dec_digits(n)[i]),
    decreases n,
{
    if n < 10 {
        assert(dec_digits(n)[0] == digit_char(n));
        assert(digit_char(n) as int == 48 + n);
    } else {
        lemma_dec_digits_all_digits(n / 10);
        let d = dec_digits(n / 10);
        assert(digit_char(n % 10) as int == 48 + n % 10);
        assert forall|i: int| 0 <= i < dec_digits(n).len() implies is_dec_digit(
            dec_digits(n)[i],
        ) by {
            if i == d.len() {
                assert(dec_digits(n)[i] == digit_char(n % 10));
            } else {
                assert(dec_digits(n)[i] == d[i]);
            }
        }
    }
}

/// Reading the decimal form of `n` back gives `n`.
proof fn lemma_dec_digits_roundtrip(n: nat)
    ensures
        dec_val(dec_digits(n)) == n,
        dec_digits(n).len() >= 1,
    decreases n,
{
    if n < 10 {
        let s = seq![digit_char(n)];
        assert(s.drop_last() =~= Seq::<char>::empty());
        assert(s.last() == digit_char(n));
        assert(digit_char(n) as int == 48 + n);
        assert(dec_val(s) == dec_val(s.drop_last()) * 10 + digit_val(s.last()));
    } else {
        lemma_dec_digits_roundtrip(n / 10);
        let s = dec_digits(n / 10).push(digit_char(n % 10));
        assert(s.drop_last() =~= dec_digits(n / 10));
        assert(digit_char(n % 10) as int == 48 + n % 10);
        lemma_fundamental_div_mod(n as int, 10);
    }
}

/// A value below ten to the `k` prints in at most `k` digits.
proof fn lemma_dec_digits_len_le(n: nat, k: nat)
    requires
        k >= 1,
        n < pow10(k),
    ensures
        dec_digits(n).len() <= k,
    decreases k,
{
    if n >= 10 {
        assert(k >= 2) by {
            if k == 1 {
                assert(pow10(1) == 10);
            }
        }
        assert(n / 10 < pow10((k - 1) as nat)) by {
            lemma_fundamental_div_mod(n as int, 10);
            assert(pow10(k) == 10 * pow10((k - 1) as nat));
        }
        lemma_dec_digits_len_le(n / 10, (k - 1) as nat);
    }
}

/// A value at least ten to the `k` prints in more than `k` digits.
proof fn lemma_dec_digits_len_ge(n: nat, k: nat)
    requires
        n >= pow10(k),
    ensures
        dec_digits(n).len() >= k + 1,
    decreases k,
{
    if k > 0 {
        assert(pow10(k) == 10 * pow10((k - 1) as nat));
        lemma_pow10_pos((k - 1) as nat);
        assert(n >= 10);
        assert(n / 10 >= pow10((k - 1) as nat)) by {
            lemma_fundamental_div_mod(n as int, 10);
        }
        lemma_dec_digits_len_ge(n / 10, (k - 1) as nat);
    }
}

/// Sanitizing the decimal form of a value that already fits in nine
/// digits gives that value back unchanged.
pub proof fn lemma_seed_roundtrip(n: nat)
    requires
        n <= MAX_NINE_DIGIT_SEED,
    ensures
        seed_of_text(dec_digits(n)) == n,
{
    lemma_dec_digits_all_digits(n);
    lemma_digits_of_identity(dec_digits(n));
    lemma_dec_digits_roundtrip(n);
    assert(pow10(9) == 1_000_000_000) by { reveal_with_fuel(pow10, 10); }
    lemma_dec_digits_len_le(n, 9);
}

/// The sanitizer is idempotent: for text that is already a valid seed
/// string (digits only, at most nine of them), the seed it commits,
/// printed back as decimal text and sanitized again, is the same seed.
pub proof fn lemma_sanitize_idempotent(s: Seq<char>)
    requires
        s.len() <= 9,
        forall|i: int| 0 <= i < s.len() ==> is_dec_digit(s[i]),
    ensures
        seed_of_text(s) == dec_val(s),
        seed_of_text(dec_digits(seed_of_text(s))) == seed_of_text(s),
{
    lemma_digits_of_identity(s);
    lemma_dec_val_bound(s);
    assert(pow10(9) == 1_000_000_000) by { reveal_with_fuel(pow10, 10); }
    lemma_pow10_increases(s.len(), 9);
    lemma_seed_roundtrip(dec_val(s));
}

/// Read the digits of `text`, first nine only, as a 32-bit seed.
/// Non-digit characters are skipped; text without any digit gives
/// seed zero.
pub fn seed_from_text(text: &str) -> (r: u32)
    ensures
        r as nat == seed_of_text(text@),
        r <= MAX_NINE_DIGIT_SEED,
{
    let n = text.unicode_len();
    let mut value: u64 = 0;
    let mut count: usize = 0;
    let mut i: usize = 0;
    proof {
        assert(text@.take(0) =~= Seq::<char>::empty());
    }
    while i < n
        invariant
            i <= n,
            n == text@.len(),
            count <= 9,
            count == if digits_of(text@.take(i as int)).len() <= 9 {
                digits_of(text@.take(i as int)).len()
            } else {
                9nat
            },
            value as nat == dec_val(digits_of(text@.take(i as int)).take(count as int)),
            value < pow10(count as nat),
        decreases n - i,
    {
        let c = text.get_char(i);
        let cv = c as u32;
        proof {
            lemma_digits_of_take_step(text@, i as int);
        }
        let ghost d = digits_of(text@.take(i as int));
        if 48 <= cv && cv <= 57 {
            if count < 9 {
                proof {
                    assert(d.len() == count);
                    assert(d.take(count as int) =~= d);
                    assert(d.push(text@[i as int]).take(count + 1) =~= d.push(text@[i as int]));
                    assert(d.push(text@[i as int]).drop_last() =~= d);
                    assert(pow10((count + 1) as nat) == 10 * pow10(count as nat));
                    lemma_pow10_increases(count as nat, 8);
                    assert(pow10(8) == 100_000_000) by { reveal_with_fuel(pow10, 9); }
                }
                value = value * 10 + ((cv - 48) as u64);
                count = count + 1;
            } else {
                proof {
                    assert(d.len() >= 9);
                    assert(d.push(text@[i as int]).take(count as int) =~= d.take(count as int));
                }
            }
        }
        i = i + 1;
    }
    proof {
        assert(text@.take(n as int) =~= text@);
        let d = digits_of(text@);
        if d.len() <= 9 {
            assert(d.take(count as int) =~= d);
        } else {
            assert(d.take(count as int) =~= first_nine(d));
        }
        lemma_pow10_increases(count as nat, 9);
        assert(pow10(9) == 1_000_000_000) by { reveal_with_fuel(pow10, 10); }
    }
    value as u32
}

/// Relies on rand::random::<u32>: one draw from the thread-local
/// generator; nothing is promised of the value.
#[verifier::external_body]
fn fresh_seed_value() -> u32 {
    rand::random::<u32>()
}

/// Sanitize the decimal form of a fresh 32-bit value: its first nine
/// digits, read back as a number. Values of ten digits lose their last
/// digit, exactly as the text pipeline would drop it.
pub fn truncate_fresh(fresh: u32) -> (r: u32)
    ensures
        r as nat == seed_of_text(dec_digits(fresh as nat)),
        r <= MAX_NINE_DIGIT_SEED,
{
    proof {
        let n = fresh as nat;
        lemma_dec_digits_all_digits(n);
        lemma_digits_of_identity(dec_digits(n));
        lemma_dec_digits_roundtrip(n);
        assert(pow10(9) == 1_000_000_000) by { reveal_with_fuel(pow10, 10); }
        assert(pow10(8) == 100_000_000) by { reveal_with_fuel(pow10, 9); }
        if n >= 1_000_000_000 {
            lemma_dec_digits_len_ge(n, 9);
            lemma_fundamental_div_mod(n as int, 10);
            assert(n / 10 < pow10(9));
            assert(n / 10 >= pow10(8));
            lemma_dec_digits_len_le(n / 10, 9);
            lemma_dec_digits_len_ge(n / 10, 8);
            assert(dec_digits(n / 10).len() == 9);
            assert(dec_digits(n) == dec_digits(n / 10).push(digit_char(n % 10)));
            assert(dec_digits(n).take(9) =~= dec_digits(n / 10));
            lemma_dec_digits_roundtrip(n / 10);
        } else {
            lemma_dec_digits_len_le(n, 9);
        }
    }
    if fresh >= 1_000_000_000 {
        fresh / 10
    } else {
        fresh
    }
}

/// Turn free-form seed text into a committed 32-bit seed: drop every
/// non-digit, keep the first nine digits, read them as decimal. Empty
/// input draws a fresh random value and sanitizes its decimal form the
/// same way.
pub fn sanitize(text: &str) -> (r: u32)
    ensures
        text@.len() > 0 ==> r as nat == seed_of_text(text@),
        text@.len() == 0 ==> exists|f: u32| r as nat == seed_of_text(dec_digits(f as nat)),
        r <= MAX_NINE_DIGIT_SEED,
{
    if text.unicode_len() == 0 {
        let f = fresh_seed_value();
        let r = truncate_fresh(f);
        proof {
            assert(r as nat == seed_of_text(dec_digits(f as nat)));
        }
        r
    } else {
        seed_from_text(text)
    }
}

} // verus!
