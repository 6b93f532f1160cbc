//! Decimal numbers as they appear in the feed: reading the page counters
//! and the unix-second timestamps out of attribute strings, and rendering
//! the page number into the request URL. Both directions are specified
//! against the mathematical value of a digit sequence.

use vstd::prelude::*;
use vstd::string::StrSliceExecFns;
use vstd::string::StringExecFns;
use vstd::arithmetic::div_mod::lemma_fundamental_div_mod;
use vstd::arithmetic::div_mod::lemma_mod_bound;

verus! {

/// Whether `c` is a decimal digit.
pub open spec fn is_dec_digit(c: char) -> bool {
    48 <= c as u32 && c as u32 <= 57
}

/// The value of the digit `c`.
pub open spec fn digit_val(c: char) -> int {
    c as u32 - 48
}

/// Whether every character of `s` is a decimal digit.
pub open spec fn all_digits(s: Seq<char>) -> bool {
    forall|i: int| 0 <= i < s.len() ==> is_dec_digit(s[i])
}

/// The value of the digit sequence `s`, read most significant first.
pub open spec fn dec_val(s: Seq<char>) -> int
    decreases s.len(),
{
    if s.len() == 0 {
        0
    } else {
        10 * dec_val(s.drop_last()) + digit_val(s.last())
    }
}

proof fn lemma_dec_val_nonneg(s: Seq<char>)
    requires
        all_digits(s),
    ensures
        dec_val(s) >= 0,
    decreases s.len(),
{
    if s.len() > 0 {
        assert(forall|i: int| 0 <= i < s.drop_last().len() ==> s.drop_last()[i] == s[i]);
        lemma_dec_val_nonneg(s.drop_last());
    }
}

proof fn lemma_dec_val_take_succ(s: Seq<char>, i: int)
    requires
        0 <= i < s.len(),
    ensures
        dec_val(s.take(i + 1)) == 10 * dec_val(s.take(i)) + digit_val(s[i]),
{
    assert(s.take(i + 1).drop_last() =~= s.take(i));
    assert(s.take(i + 1).last() == s[i]);
}

proof fn lemma_dec_val_take_mono(s: Seq<char>, i: int)
    requires
        all_digits(s),
        0 <= i <= s.len(),
    ensures
        dec_val(s.take(i)) <= dec_val(s),
    decreases s.len() - i,
{
    if i == s.len() {
        assert(s.take(i) =~= s);
    } else {
        lemma_dec_val_take_succ(s, i);
        assert(forall|j: int| 0 <= j < s.take(i).len() ==> s.take(i)[j] == s[j]);
        lemma_dec_val_nonneg(s.take(i));
        lemma_dec_val_take_mono(s, i + 1);
    }
}

/// The value of the digits of `s`, skipping the first `start` characters,
/// when they are a non-empty all-digit run whose value fits in `u64`;
/// `None` otherwise.
fn dec_digits_val(s: &str, start: usize) -> (r: Option<u64>)
    requires
        start as int <= s@.len(),
    ensures
        ({
            let d = s@.skip(start as int);
            match r {
                Some(v) => d.len() > 0 && all_digits(d) && v == dec_val(d),
                None => !(d.len() > 0 && all_digits(d) && dec_val(d) <= u64::MAX),
            }
        }),
{
    let ghost d = s@.skip(start as int);
    let n = s.unicode_len();
    if start == n {
        return None;
    }
    let mut acc: u64 = 0;
    let mut i: usize = start;
    proof {
        assert(s@.subrange(start as int, start as int) =~= d.take(0));
    }
    while i < n
        invariant
            n == s@.len(),
            start < n,
            start <= i <= n,
            d == s@.skip(start as int),
            forall|j: int| 0 <= j < i - start ==> is_dec_digit(d[j]),
            acc == dec_val(d.take(i - start)),
        decreases n - i,
    {
        let c = s.get_char(i);
        let u = c as u32;
        proof {
            assert(d[i - start] == s@[i as int]);
        }
        if u < 48 || u > 57 {
            return None;
        }
        let dv = (u - 48) as u64;
        proof {
            lemma_dec_val_take_succ(d, i - start);
        }
        if acc > (u64::MAX - dv) / 10 {
            proof {
                let x = (u64::MAX - dv) as int;
                lemma_fundamental_div_mod(x, 10);
                lemma_mod_bound(x, 10);
                assert(10 * acc >= 10 * (x / 10 + 1));
                assert(dec_val(d.take(i - start + 1)) > u64::MAX);
                if all_digits(d) {
                    lemma_dec_val_take_mono(d, i - start + 1);
                }
            }
            return None;
        }
        proof {
            let x = (u64::MAX - dv) as int;
            lemma_fundamental_div_mod(x, 10);
            lemma_mod_bound(x, 10);
            assert(10 * acc <= 10 * (x / 10));
        }
        acc = acc * 10 + dv;
        i += 1;
    }
    proof {
        assert(d.take(n - start) =~= d);
    }
    Some(acc)
}

/// The digit run of an unsigned decimal string: an optional leading `+`
/// sign followed by the digits themselves.
pub open spec fn u64_digits(s: Seq<char>) -> Seq<char> {
    if s.len() > 0 && s[0] == '+' {
        s.drop_first()
    } else {
        s
    }
}

/// Whether `s` is the decimal rendering of a value that fits in `u64`.
pub open spec fn is_u64_string(s: Seq<char>) -> bool {
    let d = u64_digits(s);
    d.len() > 0 && all_digits(d) && dec_val(d) <= u64::MAX
}

/// The value that the decimal string `s` denotes.
pub open spec fn u64_string_val(s: Seq<char>) -> int {
    dec_val(u64_digits(s))
}

/// Read a base-ten `u64` out of `s`: an optional `+` sign, then one or
/// more digits, rejected exactly when malformed or out of range.
pub fn parse_u64(s: &str) -> (r: Option<u64>)
    ensures
        match r {
            Some(v) => is_u64_string(s@) && v == u64_string_val(s@),
            None => !is_u64_string(s@),
        },
{
    let n = s.unicode_len();
    if n == 0 {
        return None;
    }
    let first = s.get_char(0);
    let start: usize = if first == '+' {
        1
    } else {
        0
    };
    proof {
        if start == 0 {
            assert(s@.skip(0) =~= s@);
        } else {
            assert(s@.skip(1) =~= s@.drop_first());
        }
    }
    dec_digits_val(s, start)
}

/// The digit run of a signed decimal string: an optional leading `+` or
/// `-` sign followed by the digits themselves.
pub open spec fn int_digits(s: Seq<char>) -> Seq<char> {
    if s.len() > 0 && (s[0] == '+' || s[0] == '-') {
        s.drop_first()
    } else {
        s
    }
}

/// Whether a signed decimal string carries a minus sign.
pub open spec fn int_negative(s: Seq<char>) -> bool {
    s.len() > 0 && s[0] == '-'
}

/// Whether `s` is the decimal rendering of a value that fits in `i64`.
pub open spec fn is_i64_string(s: Seq<char>) -> bool {
    let d = int_digits(s);
    d.len() > 0 && all_digits(d) && if int_negative(s) {
        dec_val(d) <= 9223372036854775808
    } else {
        dec_val(d) <= i64::MAX
    }
}

/// The value that the signed decimal string `s` denotes.
pub open spec fn i64_string_val(s: Seq<char>) -> int {
    if int_negative(s) {
        -dec_val(int_digits(s))
    } else {
        dec_val(int_digits(s))
    }
}

/// Read a base-ten `i64` out of `s`: an optional sign, then one or more
/// digits, rejected exactly when malformed or out of range.
pub fn parse_i64(s: &str) -> (r: Option<i64>)
    ensures
        match r {
            Some(v) => is_i64_string(s@) && v == i64_string_val(s@),
            None => !is_i64_string(s@),
        },
{
    let n = s.unicode_len();
    if n == 0 {
        return None;
    }
    let first = s.get_char(0);
    let negative = first == '-';
    let start: usize = if first == '+' || first == '-' {
        1
    } else {
        0
    };
    proof {
        if start == 0 {
            assert(s@.skip(0) =~= s@);
        } else {
            assert(s@.skip(1) =~= s@.drop_first());
        }
    }
    let mag = match dec_digits_val(s, start) {
        Some(m) => m,
        None => {
            return None;
        },
    };
    if negative {
        if mag > 9223372036854775808u64 {
            None
        } else if mag == 9223372036854775808u64 {
            Some(i64::MIN)
        } else {
            Some(-(mag as i64))
        }
    } else {
        if mag > 9223372036854775807u64 {
            None
        } else {
            Some(mag as i64)
        }
    }
}

/// The digit character for the value `d`.
pub open spec fn spec_digit_char(d: int) -> char {
    if d == 0 {
        '0'
    } else if d == 1 {
        '1'
    } else if d == 2 {
        '2'
    } else if d == 3 {
        '3'
    } else if d == 4 {
        '4'
    } else if d == 5 {
        '5'
    } else if d == 6 {
        '6'
    } else if d == 7 {
        '7'
    } else if d == 8 {
        '8'
    } else {
        '9'
    }
}

/// The decimal rendering of the non-negative value `n`, most significant
/// digit first, with no leading zero except for zero itself.
pub open spec fn spec_dec_str(n: int) -> Seq<char>
    decreases n,
{
    if n < 10 {
        seq![spec_digit_char(n)]
    } else {
        spec_dec_str(n / 10) + seq![spec_digit_char(n % 10)]
    }
}

/// The rendering is faithful: `spec_dec_str(n)` is all digits and its
/// value, read back as a decimal digit run, is `n` itself.
pub proof fn lemma_dec_str_val(n: int)
    requires
        n >= 0,
    ensures
        spec_dec_str(n).len() > 0,
        all_digits(spec_dec_str(n)),
        dec_val(spec_dec_str(n)) == n,
    decreases n,
{
    if n < 10 {
        let s = seq![spec_digit_char(n)];
        assert(s.drop_last() =~= Seq::<char>::empty());
        assert(dec_val(Seq::<char>::empty()) == 0);
        assert(s.last() == spec_digit_char(n));
        assert(digit_val(spec_digit_char(n)) == n);
        assert(dec_val(s) == digit_val(spec_digit_char(n)));
    } else {
        lemma_dec_str_val(n / 10);
        let prefix = spec_dec_str(n / 10);
        let s = prefix + seq![spec_digit_char(n % 10)];
        assert(s.drop_last() =~= prefix);
        assert(s.last() == spec_digit_char(n % 10));
        assert(dec_val(s) == 10 * dec_val(prefix) + digit_val(spec_digit_char(n % 10)));
        lemma_fundamental_div_mod(n, 10);
        lemma_mod_bound(n, 10);
        assert(forall|i: int| 0 <= i < s.len() ==> is_dec_digit(s[i]));
    }
}

/// Round trip: the decimal rendering of a `u64` reads back as a valid
/// `u64` string denoting exactly the value it was rendered from.
pub proof fn lemma_dec_str_round_trip(n: u64)
    ensures
        is_u64_string(spec_dec_str(n as int)),
        u64_string_val(spec_dec_str(n as int)) == n,
{
    lemma_dec_str_val(n as int);
    let s = spec_dec_str(n as int);
    assert(is_dec_digit(s[0]));
    assert(s[0] != '+');
    assert(u64_digits(s) =~= s);
}

fn digit_str(d: u64) -> (r: &'static str)
    requires
        d < 10,
    ensures
        r@ =~= seq![spec_digit_char(d as int)],
{
    proof {
        reveal_strlit("0");
        reveal_strlit("1");
        reveal_strlit("2");
        reveal_strlit("3");
        reveal_strlit("4");
        reveal_strlit("5");
        reveal_strlit("6");
        reveal_strlit("7");
        reveal_strlit("8");
        reveal_strlit("9");
    }
    if d == 0 {
        "0"
    } else if d == 1 {
        "1"
    } else if d == 2 {
        "2"
    } else if d == 3 {
        "3"
    } else if d == 4 {
        "4"
    } else if d == 5 {
        "5"
    } else if d == 6 {
        "6"
    } else if d == 7 {
        "7"
    } else if d == 8 {
        "8"
    } else {
        "9"
    }
}

/// Render `n` in base ten.
pub fn u64_to_string(n: u64) -> (r: String)
    ensures
        r@ == spec_dec_str(n as int),
    decreases n,
{
    if n < 10 {
        String::from_str(digit_str(n))
    } else {
        let mut s = u64_to_string(n / 10);
        s.append(digit_str(n % 10));
        s
    }
}

} // verus!
