use vstd::prelude::*;
use vstd::string::StrSliceExecFns;
use vstd::string::StringExecFns;
use vstd::utf8::*;

verus! {

broadcast use vstd::utf8::group_utf8_lib;

/// Whether two strings hold the same characters, compared through their UTF-8 bytes.
pub fn str_eq(a: &str, b: &str) -> (r: bool)
    ensures
        r == (a@ == b@),
{
    let x = a.as_bytes();
    let y = b.as_bytes();
    proof {
        encode_utf8_decode_utf8(a@);
        encode_utf8_decode_utf8(b@);
    }
    if x.len() != y.len() {
        assert(x@ != y@);
        return false;
    }
    let mut i: usize = 0;
    while i < x.len()
        invariant
            x@.len() == y@.len(),
            a@ == b@ ==> x@ == y@,
            i <= x@.len(),
            forall|j: int| 0 <= j < i ==> x@[j] == y@[j],
        decreases x@.len() - i,
    {
        if x[i] != y[i] {
            assert(x@[i as int] != y@[i as int]);
            assert(x@ != y@);
            return false;
        }
        i = i + 1;
    }
    assert(x@ =~= y@);
    true
}

/// The characters of `a`, then `b`.
pub fn concat2(a: &str, b: &str) -> (r: String)
    ensures
        r@ == a@ + b@,
{
    let mut m = String::from_str(a);
    m.append(b);
    m
}

/// The characters of `a`, then `b`, then `c`.
pub fn concat3(a: &str, b: &str, c: &str) -> (r: String)
    ensures
        r@ == a@ + b@ + c@,
{
    let mut m = String::from_str(a);
    m.append(b);
    m.append(c);
    m
}

/// The characters of a string, one by one.
pub fn to_chars(s: &str) -> (r: Vec<char>)
    ensures
        r@ == s@,
{
    let n = s.unicode_len();
    let mut v: Vec<char> = Vec::new();
    let mut i: usize = 0;
    while i < n
        invariant
            n == s@.len(),
            i <= n,
            v@ == s@.take(i as int),
        decreases n - i,
    {
        v.push(s.get_char(i));
        i = i + 1;
        assert(v@ =~= s@.take(i as int));
    }
    assert(v@ =~= s@);
    v
}

pub open spec fn is_digit(c: char) -> bool {
    '0' <= c && c <= '9'
}

pub open spec fn is_sign(c: char) -> bool {
    c == '+' || c == '-'
}

pub open spec fn is_digit_or_dot(c: char) -> bool {
    is_digit(c) || c == '.'
}

/// The upper-case form of the letters that the special float words use.
pub open spec fn upper_of(c: char) -> char {
    if c == 'a' {
        'A'
    } else if c == 'f' {
        'F'
    } else if c == 'i' {
        'I'
    } else if c == 'n' {
        'N'
    } else if c == 't' {
        'T'
    } else if c == 'y' {
        'Y'
    } else {
        c
    }
}

/// `s` spells the lower-case word `w`, each letter in either case.
pub open spec fn eq_ignore_case(s: Seq<char>, w: Seq<char>) -> bool {
    s.len() == w.len() && forall|i: int| 0 <= i < s.len() ==> s[i] == w[i] || s[i] == upper_of(w[i])
}

/// Every character of `s` in `[a, b)` is a decimal digit.
pub open spec fn digits_in(s: Seq<char>, a: int, b: int) -> bool {
    forall|i: int| a <= i < b ==> is_digit(#[trigger] s[i])
}

/// `s[a..b]` is a mantissa: digits with at most one decimal point, and at least one digit.
pub open spec fn is_mantissa_in(s: Seq<char>, a: int, b: int) -> bool {
    (a < b && digits_in(s, a, b)) || (b - a > 1 && exists|d: int|
        a <= d < b && s[d] == '.' && digits_in(s, a, d) && digits_in(s, d + 1, b))
}

/// `s[a..b]` is an optional sign followed by at least one digit.
pub open spec fn is_signed_digits_in(s: Seq<char>, a: int, b: int) -> bool {
    if a < b && is_sign(s[a]) {
        a + 1 < b && digits_in(s, a + 1, b)
    } else {
        a < b && digits_in(s, a, b)
    }
}

/// `s[a..b]` is empty or an exponent: `e` or `E`, then signed digits.
pub open spec fn is_exponent_in(s: Seq<char>, a: int, b: int) -> bool {
    a == b || (a < b && (s[a] == 'e' || s[a] == 'E') && is_signed_digits_in(s, a + 1, b))
}

/// `s[a..]` is a decimal numeral: it splits, at its first character that is
/// neither a digit nor a point, into a mantissa and an exponent.
pub open spec fn is_numeral_from(s: Seq<char>, a: int) -> bool {
    exists|k: int|
        a <= k <= s.len() && (forall|j: int| a <= j < k ==> is_digit_or_dot(#[trigger] s[j])) && (k
            == s.len() || !is_digit_or_dot(s[k])) && is_mantissa_in(s, a, k) && is_exponent_in(
            s,
            k,
            s.len() as int,
        )
}

/// The texts that std's float parser accepts: an optional sign, then `inf`,
/// `infinity` or `nan` in any case, or a decimal numeral.
pub open spec fn is_float_text(s: Seq<char>) -> bool {
    let a: int = if s.len() > 0 && is_sign(s[0]) {
        1
    } else {
        0
    };
    eq_ignore_case(s.skip(a), "inf"@) || eq_ignore_case(s.skip(a), "infinity"@) || eq_ignore_case(
        s.skip(a),
        "nan"@,
    ) || is_numeral_from(s, a)
}

fn char_is_digit(c: char) -> (r: bool)
    ensures
        r == is_digit(c),
{
    '0' <= c && c <= '9'
}

fn char_is_sign(c: char) -> (r: bool)
    ensures
        r == is_sign(c),
{
    c == '+' || c == '-'
}

/// Whether `s[a..]` spells the lower-case word `w` in any case.
fn word_ignore_case(s: &Vec<char>, a: usize, w: &str) -> (r: bool)
    requires
        a <= s@.len(),
    ensures
        r == eq_ignore_case(s@.skip(a as int), w@),
{
    let n = w.unicode_len();
    if s.len() - a != n {
        return false;
    }
    let mut i: usize = 0;
    while i < n
        invariant
            n == w@.len(),
            s@.len() == a + n,
            a + n <= usize::MAX,
            i <= n,
            forall|j: int| 0 <= j < i ==> s@.skip(a as int)[j] == w@[j] || s@.skip(a as int)[j] == upper_of(w@[j]),
        decreases n - i,
    {
        let c = s[a + i];
        let l = w.get_char(i);
        let u = if l == 'a' {
            'A'
        } else if l == 'f' {
            'F'
        } else if l == 'i' {
            'I'
        } else if l == 'n' {
            'N'
        } else if l == 't' {
            'T'
        } else if l == 'y' {
            'Y'
        } else {
            l
        };
        if c != l && c != u {
            assert(s@.skip(a as int)[i as int] == c);
            return false;
        }
        i = i + 1;
    }
    true
}

/// Whether `s[a..b]` is all digits, and the first position from `a` that is not.
fn scan_digits(s: &Vec<char>, a: usize) -> (r: usize)
    requires
        a <= s@.len(),
    ensures
        a <= r <= s@.len(),
        digits_in(s@, a as int, r as int),
        r == s@.len() || !is_digit(s@[r as int]),
{
    let mut i = a;
    while i < s.len() && char_is_digit(s[i])
        invariant
            a <= i <= s@.len(),
            digits_in(s@, a as int, i as int),
        decreases s@.len() - i,
    {
        i = i + 1;
    }
    i
}

/// Whether a text is one that std's float parser accepts.
pub fn check_float_text(t: &str) -> (r: bool)
    ensures
        r == is_float_text(t@),
{
    let s = to_chars(t);
    let a: usize = if s.len() > 0 && char_is_sign(s[0]) {
        1
    } else {
        0
    };
    if word_ignore_case(&s, a, "inf") || word_ignore_case(&s, a, "infinity") || word_ignore_case(
        &s,
        a,
        "nan",
    ) {
        return true;
    }
    let r = numeral_from(&s, a);
    r
}

/// Whether `s[a..]` is a decimal numeral.
fn numeral_from(s: &Vec<char>, a: usize) -> (r: bool)
    requires
        a <= s@.len(),
    ensures
        r == is_numeral_from(s@, a as int),
{
    let ghost q = s@;
    // the mantissa: digits, an optional point, digits
    let d1 = scan_digits(s, a);
    let mut k = d1;
    let has_dot = d1 < s.len() && s[d1] == '.';
    if has_dot {
        k = scan_digits(s, d1 + 1);
    }
    // a second point, or any other digit or point, leaves no numeral
    if k < s.len() && s[k] == '.' {
        proof {
            assert forall|k2: int|
                a <= k2 <= q.len() && (forall|j: int| a <= j < k2 ==> is_digit_or_dot(#[trigger] q[j]))
                    && (k2 == q.len() || !is_digit_or_dot(q[k2])) implies !is_mantissa_in(q, a as int, k2) by {
                assert(k2 > k) by {
                    if k2 <= k {
                        assert(is_digit_or_dot(q[k2]));
                    }
                }
                assert(q[k as int] == '.' && q[d1 as int] == '.');
                assert(!is_digit(q[k as int]));
                assert(!is_digit(q[d1 as int]));
            }
        }
        return false;
    }
    let mantissa_ok = if has_dot {
        k - a > 1
    } else {
        k > a
    };
    proof {
        assert(k == q.len() || !is_digit_or_dot(q[k as int]));
        assert forall|j: int| a <= j < k implies is_digit_or_dot(#[trigger] q[j]) by {
            if j < d1 {
            } else if j == d1 {
            } else {
            }
        }
        if has_dot {
            if k - a > 1 {
                assert(is_mantissa_in(q, a as int, k as int));
            } else {
                assert(!is_mantissa_in(q, a as int, k as int)) by {
                    if a < k && digits_in(q, a as int, k as int) {
                        assert(is_digit(q[d1 as int]));
                    }
                }
            }
        } else {
            if k > a {
                assert(is_mantissa_in(q, a as int, k as int));
            }
        }
    }
    let exponent_ok = exponent_at(s, k);
    proof {
        if mantissa_ok && exponent_ok {
            assert(is_numeral_from(q, a as int));
        } else {
            assert forall|k2: int|
                a <= k2 <= q.len() && (forall|j: int| a <= j < k2 ==> is_digit_or_dot(#[trigger] q[j]))
                    && (k2 == q.len() || !is_digit_or_dot(q[k2])) implies k2 == k by {
                if k2 < k {
                    assert(is_digit_or_dot(q[k2]));
                }
                if k2 > k {
                    assert(is_digit_or_dot(q[k as int]));
                }
            }
        }
    }
    mantissa_ok && exponent_ok
}

/// Whether `s[k..]` is empty or an exponent.
fn exponent_at(s: &Vec<char>, k: usize) -> (r: bool)
    requires
        k <= s@.len(),
    ensures
        r == is_exponent_in(s@, k as int, s@.len() as int),
{
    if k == s.len() {
        return true;
    }
    if s[k] != 'e' && s[k] != 'E' {
        return false;
    }
    let mut j = k + 1;
    if j < s.len() && char_is_sign(s[j]) {
        j = j + 1;
    }
    let e = scan_digits(s, j);
    let r = j < s.len() && e == s.len();
    proof {
        if !r && j < s@.len() {
            assert(!is_digit(s@[e as int]));
        }
    }
    r
}

} // verus!
