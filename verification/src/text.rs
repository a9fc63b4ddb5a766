//! Character and decimal-number helpers shared by all data formats.

use vstd::prelude::*;
use vstd::utf8::*;

verus! {

/// The ASCII character for a decimal digit `d` (`0 <= d < 10`).
pub open spec fn digit_char(d: nat) -> char {
    (d + 48) as char
}

/// The canonical decimal representation of a natural number (no sign, no leading zeros).
pub open spec fn decimal(n: nat) -> Seq<char>
    decreases n,
{
    if n < 10 {
        seq![digit_char(n)]
    } else {
        decimal(n / 10).push(digit_char(n % 10))
    }
}

/// The decimal representation Rust's formatting produces for an integer: a `-` followed by the
/// magnitude for negative values.
pub open spec fn signed_decimal(n: int) -> Seq<char> {
    if n < 0 {
        seq!['-'] + decimal((-n) as nat)
    } else {
        decimal(n as nat)
    }
}

pub open spec fn is_digit(c: char) -> bool {
    '0' <= c <= '9'
}

pub open spec fn all_digits(s: Seq<char>) -> bool {
    forall|i: int| 0 <= i < s.len() ==> is_digit(#[trigger] s[i])
}

/// The value of a sequence of decimal digits.
pub open spec fn digits_value(s: Seq<char>) -> nat
    decreases s.len(),
{
    if s.len() == 0 {
        0
    } else {
        digits_value(s.drop_last()) * 10 + ((s.last() as nat) - 48) as nat
    }
}

/// What Rust's `FromStr` does for an integer type whose values range over `lo..=hi`: an optional
/// `+` (or, for signed types, `-`), followed by at least one decimal digit, with the value in range.
pub open spec fn parse_int(s: Seq<char>, lo: int, hi: int) -> Option<int> {
    let neg = s.len() > 0 && s[0] == '-' && lo < 0;
    let digits = if s.len() > 0 && (s[0] == '+' || neg) {
        s.drop_first()
    } else {
        s
    };
    let v: int = if neg {
        -(digits_value(digits) as int)
    } else {
        digits_value(digits) as int
    };
    if digits.len() > 0 && all_digits(digits) && lo <= v <= hi {
        Some(v)
    } else {
        None
    }
}

/// Appends a character to a `String` (`String::push`).
#[verifier::external_body]
pub fn push_char(s: &mut String, c: char)
    ensures
        final(s)@ == old(s)@.push(c),
{
    s.push(c)
}

/// Converts bytes into a `String` (`String::from_utf8`): succeeds exactly on well-formed UTF-8.
#[verifier::external_body]
pub fn string_from_utf8(bytes: Vec<u8>) -> (res: Option<String>)
    ensures
        res is Some <==> valid_utf8(bytes@),
        res matches Some(s) ==> s@ == decode_utf8(bytes@),
{
    String::from_utf8(bytes).ok()
}

/// Formats an integer in decimal (`itoa::Buffer::format`).
#[verifier::external_body]
pub fn format_i128(n: i128) -> (res: String)
    ensures
        res@ == signed_decimal(n as int),
{
    let mut buffer = itoa::Buffer::new();
    buffer.format(n).to_string()
}

/// The characters of a string slice.
pub fn chars_of(s: &str) -> (res: Vec<char>)
    ensures
        res@ == s@,
{
    let mut v: Vec<char> = Vec::new();
    let n = s.unicode_len();
    let mut i: usize = 0;
    while i < n
        invariant
            n == s@.len(),
            i <= n,
            v@ == s@.take(i as int),
        decreases n - i,
    {
        let c = s.get_char(i);
        v.push(c);
        assert(s@.take(i + 1) =~= s@.take(i as int).push(c));
        i = i + 1;
    }
    assert(s@.take(n as int) =~= s@);
    v
}

/// A `String` holding the given characters.
pub fn string_from_chars(cs: &[char]) -> (res: String)
    ensures
        res@ == cs@,
{
    let mut s = String::new();
    let mut i: usize = 0;
    while i < cs.len()
        invariant
            i <= cs@.len(),
            s@ == cs@.take(i as int),
        decreases cs@.len() - i,
    {
        push_char(&mut s, cs[i]);
        assert(cs@.take(i + 1) =~= cs@.take(i as int).push(cs@[i as int]));
        i = i + 1;
    }
    assert(cs@.take(cs@.len() as int) =~= cs@);
    s
}

/// Whether two character sequences are equal.
pub fn chars_eq(a: &[char], b: &[char]) -> (res: bool)
    ensures
        res == (a@ == b@),
{
    if a.len() != b.len() {
        return false;
    }
    let mut i: usize = 0;
    while i < a.len()
        invariant
            a@.len() == b@.len(),
            i <= a@.len(),
            forall|j: int| 0 <= j < i ==> a@[j] == b@[j],
        decreases a@.len() - i,
    {
        if a[i] != b[i] {
            return false;
        }
        i = i + 1;
    }
    assert(a@ =~= b@);
    true
}


proof fn lemma_digit_char(d: nat)
    requires
        d < 10,
    ensures
        digit_char(d) as nat == d + 48,
        is_digit(digit_char(d)),
{
}

/// Facts about the canonical decimal representation: it is a non-empty run of digits whose value
/// is the number itself.
pub proof fn lemma_decimal(n: nat)
    ensures
        decimal(n).len() > 0,
        all_digits(decimal(n)),
        digits_value(decimal(n)) == n,
    decreases n,
{
    if n < 10 {
        lemma_digit_char(n);
        assert(decimal(n).drop_last() =~= Seq::<char>::empty());
        assert(digits_value(Seq::<char>::empty()) == 0);
    } else {
        lemma_digit_char(n % 10);
        lemma_decimal(n / 10);
        assert(decimal(n).drop_last() =~= decimal(n / 10));
        assert forall|i: int| 0 <= i < decimal(n).len() implies is_digit(#[trigger] decimal(n)[i]) by {
            if i < decimal(n / 10).len() {
                assert(is_digit(decimal(n / 10)[i]));
            }
        }
    }
}

/// Distinct numbers have distinct decimal representations.
pub proof fn lemma_decimal_injective(a: nat, b: nat)
    ensures
        decimal(a) == decimal(b) ==> a == b,
{
    lemma_decimal(a);
    lemma_decimal(b);
}

/// Parsing the decimal representation of an in-range integer gives the integer back.
pub proof fn lemma_parse_signed_decimal(n: int, lo: int, hi: int)
    requires
        lo <= n <= hi,
    ensures
        parse_int(signed_decimal(n), lo, hi) == Some(n),
{
    if n < 0 {
        let m = (-n) as nat;
        lemma_decimal(m);
        let s = signed_decimal(n);
        assert(s.drop_first() =~= decimal(m));
    } else {
        lemma_decimal(n as nat);
        assert(is_digit(decimal(n as nat)[0]));
    }
}

/// Parses an integer the way Rust's `FromStr` does for a type whose values range over `lo..=hi`.
pub fn parse_int_exec(s: &[char], lo: i128, hi: i128) -> (res: Option<i128>)
    requires
        -0x1_0000_0000_0000_0000 <= lo <= 0 <= hi < 0x1_0000_0000_0000_0000,
    ensures
        match res {
            Some(v) => parse_int(s@, lo as int, hi as int) == Some(v as int),
            None => parse_int(s@, lo as int, hi as int) is None,
        },
{
    let n = s.len();
    let neg = n > 0 && s[0] == '-' && lo < 0;
    let start: usize = if n > 0 && (s[0] == '+' || neg) {
        1
    } else {
        0
    };
    let ghost digits = s@.subrange(start as int, n as int);
    assert(digits =~= (if n > 0 && (s@[0] == '+' || neg) {
        s@.drop_first()
    } else {
        s@
    }));
    if start >= n {
        return None;
    }
    let cap: i128 = if hi > -lo {
        hi + 1
    } else {
        -lo + 1
    };
    let mut v: i128 = 0;
    let mut i: usize = start;
    while i < n
        invariant
            start <= i <= n,
            n == s@.len(),
            1 <= cap <= 0x1_0000_0000_0000_0001,
            v == (if digits_value(s@.subrange(start as int, i as int)) < cap {
                digits_value(s@.subrange(start as int, i as int)) as int
            } else {
                cap as int
            }),
            all_digits(s@.subrange(start as int, i as int)),
            neg == (n > 0 && s@[0] == '-' && lo < 0),
            start == (if n > 0 && (s@[0] == '+' || neg) { 1int } else { 0int }),
            digits == s@.subrange(start as int, n as int),
            lo <= 0 <= hi,
            cap == (if hi > -lo { hi + 1 } else { -lo + 1 }),
        decreases n - i,
    {
        let c = s[i];
        if !('0' <= c && c <= '9') {
            assert(!is_digit(digits[i - start]));
            assert(digits =~= (if n > 0 && (s@[0] == '+' || neg) {
                s@.drop_first()
            } else {
                s@
            }));
            return None;
        }
        let d = ((c as u32) - 48) as i128;
        let ghost prev = s@.subrange(start as int, i as int);
        let ghost next = s@.subrange(start as int, i + 1);
        assert(next.drop_last() =~= prev);
        assert(digits_value(next) == digits_value(prev) * 10 + d);
        v = v * 10 + d;
        if v > cap {
            v = cap;
        }
        assert forall|j: int| 0 <= j < next.len() implies is_digit(#[trigger] next[j]) by {
            if j < prev.len() {
                assert(next[j] == prev[j]);
            }
        }
        i = i + 1;
    }
    assert(s@.subrange(start as int, n as int) =~= digits);
    assert(digits =~= (if n > 0 && (s@[0] == '+' || neg) {
        s@.drop_first()
    } else {
        s@
    }));
    let value: i128 = if neg {
        -v
    } else {
        v
    };
    if lo <= value && value <= hi {
        Some(value)
    } else {
        None
    }
}


/// ASCII lower-casing of a character.
pub open spec fn lower_ascii(c: char) -> char {
    if 'A' <= c <= 'Z' {
        ((c as u32) + 32) as char
    } else {
        c
    }
}

/// Whether `s` equals the lower-case `lit` up to ASCII case.
pub open spec fn eq_ignore_ascii_case(s: Seq<char>, lit: Seq<char>) -> bool {
    s.len() == lit.len() && forall|i: int| 0 <= i < s.len() ==> lower_ascii(#[trigger] s[i]) == lit[i]
}

/// `s` without a leading `+` or `-`.
pub open spec fn unsigned_part(s: Seq<char>) -> Seq<char> {
    if s.len() > 0 && (s[0] == '+' || s[0] == '-') {
        s.drop_first()
    } else {
        s
    }
}

/// The position of the first `e` or `E` at or after `i` (the length if there is none).
pub open spec fn exponent_start(s: Seq<char>, i: int) -> int
    decreases s.len() - i,
{
    if i < 0 || i >= s.len() {
        s.len() as int
    } else if s[i] == 'e' || s[i] == 'E' {
        i
    } else {
        exponent_start(s, i + 1)
    }
}

/// Digits with at most one decimal point, and at least one digit.
pub open spec fn is_mantissa(s: Seq<char>) -> bool {
    &&& forall|i: int| 0 <= i < s.len() ==> is_digit(#[trigger] s[i]) || s[i] == '.'
    &&& forall|i: int, j: int| 0 <= i < j < s.len() && #[trigger] s[i] == '.' ==> #[trigger] s[j] != '.'
    &&& exists|i: int| 0 <= i < s.len() && is_digit(#[trigger] s[i])
}

/// An optionally signed, non-empty run of digits.
pub open spec fn is_exponent(s: Seq<char>) -> bool {
    unsigned_part(s).len() > 0 && all_digits(unsigned_part(s))
}

/// Whether Rust's `FromStr` for floating point numbers accepts `s`: an optional sign followed by
/// `inf`, `infinity` or `nan` (in any case), or by a decimal number with an optional exponent.
pub open spec fn is_float_text(s: Seq<char>) -> bool {
    let body = unsigned_part(s);
    let e = exponent_start(body, 0);
    ||| eq_ignore_ascii_case(body, seq!['i', 'n', 'f'])
    ||| eq_ignore_ascii_case(body, seq!['i', 'n', 'f', 'i', 'n', 'i', 't', 'y'])
    ||| eq_ignore_ascii_case(body, seq!['n', 'a', 'n'])
    ||| is_mantissa(body.subrange(0, e)) && (e == body.len() || is_exponent(
        body.subrange(e + 1, body.len() as int),
    ))
}

fn lower_ascii_exec(c: char) -> (res: char)
    ensures
        res == lower_ascii(c),
{
    if 'A' <= c && c <= 'Z' {
        (((c as u32) + 32) as u8) as char
    } else {
        c
    }
}

fn eq_ignore_ascii_case_exec(s: &[char], from: usize, lit: &[char]) -> (res: bool)
    requires
        from <= s@.len(),
    ensures
        res == eq_ignore_ascii_case(s@.subrange(from as int, s@.len() as int), lit@),
{
    let ghost body = s@.subrange(from as int, s@.len() as int);
    if s.len() - from != lit.len() {
        return false;
    }
    let mut i: usize = 0;
    while i < lit.len()
        invariant
            from + lit@.len() == s@.len(),
            from + lit.len() == s.len(),
            body == s@.subrange(from as int, s@.len() as int),
            i <= lit@.len(),
            forall|j: int| 0 <= j < i ==> lower_ascii(#[trigger] body[j]) == lit@[j],
        decreases lit@.len() - i,
    {
        if lower_ascii_exec(s[from + i]) != lit[i] {
            assert(lower_ascii(body[i as int]) != lit@[i as int]);
            return false;
        }
        i = i + 1;
    }
    true
}

/// Whether `s` is accepted by Rust's `FromStr` for floating point numbers.
#[verifier::loop_isolation(false)]
#[verifier::spinoff_prover]
#[verifier::rlimit(60)]
pub fn is_float_text_exec(s: &[char]) -> (res: bool)
    ensures
        res == is_float_text(s@),
{
    let n = s.len();
    let start: usize = if n > 0 && (s[0] == '+' || s[0] == '-') {
        1
    } else {
        0
    };
    let ghost body = unsigned_part(s@);
    assert(body =~= s@.subrange(start as int, n as int));
    if eq_ignore_ascii_case_exec(s, start, &['i', 'n', 'f'])
        || eq_ignore_ascii_case_exec(s, start, &['i', 'n', 'f', 'i', 'n', 'i', 't', 'y'])
        || eq_ignore_ascii_case_exec(s, start, &['n', 'a', 'n']) {
        return true;
    }
    // find the exponent marker
    let mut e: usize = start;
    while e < n && s[e] != 'e' && s[e] != 'E'
        invariant
            start <= e <= n,
            n == s@.len(),
            body == s@.subrange(start as int, n as int),
            exponent_start(body, 0) == exponent_start(body, e - start),
        decreases n - e,
    {
        e = e + 1;
    }
    let ghost em = (e - start) as int;
    assert(exponent_start(body, em) == em);
    // the mantissa
    let mut seen_digit = false;
    let mut seen_point = false;
    let mut i: usize = start;
    let ghost mant = body.subrange(0, em);
    while i < e
        invariant
            start <= i <= e <= n,
            n == s@.len(),
            body == s@.subrange(start as int, n as int),
            em == e - start,
            em == exponent_start(body, 0),
            mant == body.subrange(0, em),
            forall|k: int| 0 <= k < i - start ==> is_digit(#[trigger] mant[k]) || mant[k] == '.',
            seen_point == (exists|k: int| 0 <= k < i - start && #[trigger] mant[k] == '.'),
            forall|a: int, b: int| 0 <= a < b < i - start && #[trigger] mant[a] == '.' ==> #[trigger] mant[b] != '.',
            seen_digit == (exists|k: int| 0 <= k < i - start && is_digit(#[trigger] mant[k])),
        decreases e - i,
    {
        let c = s[i];
        assert(mant[i - start] == c);
        if c == '.' {
            if seen_point {
                let ghost a = choose|k: int| 0 <= k < i - start && #[trigger] mant[k] == '.';
                assert(mant[a] == '.' && mant[i - start] == '.');
                return false;
            }
            seen_point = true;
        } else if '0' <= c && c <= '9' {
            seen_digit = true;
        } else {
            assert(!(is_digit(mant[i - start]) || mant[i - start] == '.'));
            return false;
        }
        i = i + 1;
    }
    if !seen_digit {
        return false;
    }
    assert(is_mantissa(mant));
    if e == n {
        return true;
    }
    // the exponent
    let ghost ex = body.subrange(em + 1, body.len() as int);
    let mut j: usize = e + 1;
    if j < n && (s[j] == '+' || s[j] == '-') {
        j = j + 1;
    }
    assert(unsigned_part(ex) =~= s@.subrange(j as int, n as int));
    if j >= n {
        return false;
    }
    let mut k: usize = j;
    while k < n
        invariant
            j <= k <= n,
            n == s@.len(),
            forall|m: int| j <= m < k ==> is_digit(#[trigger] s@[m]),
            unsigned_part(ex) == s@.subrange(j as int, n as int),
            body == s@.subrange(start as int, n as int),
            em == exponent_start(body, 0),
            mant == body.subrange(0, em),
            is_mantissa(mant),
            em < body.len(),
            ex == body.subrange(em + 1, body.len() as int),
        decreases n - k,
    {
        if !('0' <= s[k] && s[k] <= '9') {
            assert(!is_digit(unsigned_part(ex)[k - j]));
            return false;
        }
        k = k + 1;
    }
    assert forall|m: int| 0 <= m < unsigned_part(ex).len() implies is_digit(#[trigger] unsigned_part(ex)[m]) by {
        assert(unsigned_part(ex)[m] == s@[j + m]);
    }
    assert(all_digits(unsigned_part(ex)));
    true
}

} // verus!
