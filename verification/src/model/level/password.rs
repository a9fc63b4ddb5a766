//! The password a level can be copied with.

use vstd::prelude::*;
use crate::encoding::{base64_decode, base64_decoded, base64_encode, base64_encoded};
use crate::serde::thunk::{ProcessError, ThunkProcessor};
use crate::text::{chars_of, decimal, format_i128, push_char};
use crate::util::{cyclic_xor, lemma_cyclic_xor_involution, xor_cycled};

verus! {

/// Whether and how a level can be copied.
#[derive(Debug, Clone, Eq, PartialEq, Copy)]
pub enum Password {
    /// The level cannot be copied.
    NoCopy,
    /// The level can be copied freely.
    FreeCopy,
    /// The level can be copied with the given password (at most six digits).
    PasswordCopy(u32),
}

/// The key RobTop XORs level passwords with.
pub const LEVEL_PASSWORD_XOR_KEY: &'static str = "26364";

/// The bytes of [`LEVEL_PASSWORD_XOR_KEY`].
pub open spec fn password_key() -> Seq<u8> {
    seq![50u8, 54u8, 51u8, 54u8, 52u8]
}

/// The key passwords are XOR-ed with is the text `26364`, and a password's bytes before that are
/// `1` followed by the password's six digits, the highest first.
pub proof fn lemma_password_key_and_digits(pw: nat)
    requires
        pw < 1000000,
    ensures
        password_key() == seq!['2' as u8, '6' as u8, '3' as u8, '6' as u8, '4' as u8],
        password_plain(pw).len() == 7,
        password_plain(pw)[0] == '1' as u8,
        password_plain(pw)[1] == 48 + pw / 100000,
        password_plain(pw)[2] == 48 + (pw / 10000) % 10,
        password_plain(pw)[3] == 48 + (pw / 1000) % 10,
        password_plain(pw)[4] == 48 + (pw / 100) % 10,
        password_plain(pw)[5] == 48 + (pw / 10) % 10,
        password_plain(pw)[6] == 48 + pw % 10,
{
    assert(password_key() =~= seq!['2' as u8, '6' as u8, '3' as u8, '6' as u8, '4' as u8]);
    reveal_with_fuel(padded_digits, 7);
}

/// `10` to the power `n`.
pub open spec fn pow10(n: nat) -> nat
    decreases n,
{
    if n == 0 {
        1
    } else {
        10 * pow10((n - 1) as nat)
    }
}

/// The last `n` decimal digits of `value`, as ASCII bytes, padded with zeros.
pub open spec fn padded_digits(value: nat, n: nat) -> Seq<u8>
    decreases n,
{
    if n == 0 {
        seq![]
    } else {
        padded_digits(value / 10, (n - 1) as nat).push((48 + value % 10) as u8)
    }
}

/// The number the bytes spell when each is read as the digit `byte - '0'`.
pub open spec fn digits_fold(bytes: Seq<u8>) -> int
    decreases bytes.len(),
{
    if bytes.len() == 0 {
        0
    } else {
        digits_fold(bytes.drop_last()) * 10 + (bytes.last() - 48)
    }
}

/// The bytes a password is encoded from before the XOR pass: a `1` followed by the password padded
/// to six digits.
pub open spec fn password_plain(pw: nat) -> Seq<u8> {
    seq![49u8] + padded_digits(pw, 6)
}

/// What the password bytes left after base64 decoding and the XOR pass are read as.
pub open spec fn password_from_plain(plain: Seq<u8>) -> Option<Password> {
    let digits = plain.drop_first();
    if plain.len() == 0 || exists|i: int| 0 <= i < digits.len() && #[trigger] digits[i] < 48 {
        None
    } else if digits_fold(digits) > u32::MAX {
        None
    } else {
        Some(Password::PasswordCopy(digits_fold(digits) as u32))
    }
}

/// What a raw password is read as: `0` is no copy, `Aw==` a free copy, anything else base64
/// encoded bytes (at most 32) that after the XOR pass hold a `1` and the password's digits.
pub open spec fn password_of(raw: Seq<char>) -> Option<Password> {
    if raw == seq!['0'] {
        Some(Password::NoCopy)
    } else if raw == seq!['A', 'w', '=', '='] {
        Some(Password::FreeCopy)
    } else {
        match base64_decoded(raw) {
            Some(bytes) => if bytes.len() > 32 {
                None
            } else {
                password_from_plain(xor_cycled(bytes, password_key()))
            },
            None => None,
        }
    }
}

/// The error reading a raw password fails with: `Base64` where the text is not base64 or decodes
/// to more than 32 bytes, `IncorrectLength` where it decodes to nothing, `IntParse` otherwise.
pub open spec fn password_error(raw: Seq<char>) -> ProcessError {
    match base64_decoded(raw) {
        Some(bytes) => if bytes.len() > 32 {
            ProcessError::Base64
        } else if bytes.len() == 0 {
            ProcessError::IncorrectLength { expected: 1 }
        } else {
            ProcessError::IntParse
        },
        None => ProcessError::Base64,
    }
}

/// The raw text a password is written as (`None`: it has more than six digits).
pub open spec fn password_text(pw: Password) -> Option<Seq<char>> {
    match pw {
        Password::NoCopy => Some(seq!['0']),
        Password::FreeCopy => Some(seq!['A', 'w', '=', '=']),
        Password::PasswordCopy(p) => if p <= 999999 {
            Some(base64_encoded(xor_cycled(password_plain(p as nat), password_key())))
        } else {
            None
        },
    }
}

/// `10^n` is positive.
proof fn lemma_pow10_positive(n: nat)
    ensures
        pow10(n) > 0,
    decreases n,
{
    if n > 0 {
        lemma_pow10_positive((n - 1) as nat);
    }
}

/// One more digit in front: the digit of `value` at position `n` (counted from the right).
proof fn lemma_padded_digits_step(value: nat, n: nat)
    ensures
        padded_digits(value, n + 1) == seq![(48 + (value / pow10(n)) % 10) as u8] + padded_digits(
            value,
            n,
        ),
    decreases n,
{
    if n == 0 {
        assert(padded_digits(value / 10, 0) =~= Seq::<u8>::empty());
        assert(padded_digits(value, 1) =~= seq![(48 + value % 10) as u8]);
        assert(pow10(0) == 1);
        assert(value / 1 == value);
        assert(padded_digits(value, 0) =~= Seq::<u8>::empty());
        assert(seq![(48 + value % 10) as u8] + Seq::<u8>::empty() =~= seq![(48 + value % 10) as u8]);
    } else {
        lemma_padded_digits_step(value / 10, (n - 1) as nat);
        lemma_pow10_positive((n - 1) as nat);
        vstd::arithmetic::div_mod::lemma_div_denominator(value as int, 10, pow10((n - 1) as nat) as int);
        assert((value / 10) / pow10((n - 1) as nat) == value / pow10(n));
        assert(padded_digits(value, n + 1) =~= seq![(48 + (value / pow10(n)) % 10) as u8] + padded_digits(
            value,
            n,
        ));
    }
}

/// The bytes a password is base64 encoded from: a `1` followed by the password padded to six
/// digits, XOR-ed with [`LEVEL_PASSWORD_XOR_KEY`].
pub fn robtop_encode_level_password(pw: u32) -> (res: Vec<u8>)
    requires
        pw <= 999999,
    ensures
        res@ == xor_cycled(password_plain(pw as nat), password_key()),
{
    let mut password: Vec<u8> = vec![49u8, 48, 48, 48, 48, 48, 48];
    let mut n: u32 = pw;
    let mut i: usize = 6;
    proof {
        assert(password@.subrange(7, 7) =~= padded_digits(pw as nat, 0));
        assert(pow10(0) == 1);
        assert(pw as nat / 1 == pw as nat);
        assert((6 - i) as nat == 0);
    }
    while i > 0
        invariant
            i <= 6,
            password@.len() == 7,
            password@[0] == 49u8,
            n == pw as nat / pow10((6 - i) as nat),
            password@.subrange(i + 1, 7) == padded_digits(pw as nat, (6 - i) as nat),
        decreases i,
    {
        let d = (n % 10) as u8;
        let ghost k = (6 - i) as nat;
        password.set(i, 48 + d);
        proof {
            lemma_padded_digits_step(pw as nat, k);
            assert(password@.subrange(i as int, 7) =~= seq![(48 + d) as u8] + password@.subrange(
                i + 1,
                7,
            ));
            lemma_pow10_positive(k);
            vstd::arithmetic::div_mod::lemma_div_denominator(pw as int, pow10(k) as int, 10);
            assert(pow10(k + 1) == pow10(k) * 10);
        }
        n = n / 10;
        i = i - 1;
    }
    proof {
        assert(password@ =~= password_plain(pw as nat));
    }
    let key: Vec<u8> = vec![50u8, 54, 51, 54, 52];
    assert(key@ =~= password_key());
    cyclic_xor(&mut password, key.as_slice());
    password
}

/// Folding digits that are all at least `'0'` gives a non-negative number that only grows as more
/// digits follow.
proof fn lemma_digits_fold_mono(s: Seq<u8>, k: int)
    requires
        0 <= k <= s.len(),
        forall|i: int| 0 <= i < s.len() ==> #[trigger] s[i] >= 48,
    ensures
        0 <= digits_fold(s.take(k)) <= digits_fold(s),
    decreases s.len(),
{
    if s.len() > 0 {
        let p = s.drop_last();
        if k == s.len() {
            assert(s.take(k) =~= s);
            lemma_digits_fold_mono(p, p.len() as int);
            assert(p.take(p.len() as int) =~= p);
        } else {
            lemma_digits_fold_mono(p, k);
            assert(p.take(k) =~= s.take(k));
        }
        lemma_digits_fold_mono(p, p.len() as int);
        assert(p.take(p.len() as int) =~= p);
    } else {
        assert(s.take(k) =~= s);
    }
}

/// Reads the password from the bytes left after base64 decoding and the XOR pass: the digits
/// after the leading byte, each taken as `byte - '0'`.
pub fn password_from_plain_exec(plain: &Vec<u8>) -> (res: Result<Password, ProcessError>)
    ensures
        match res {
            Ok(p) => password_from_plain(plain@) == Some(p),
            Err(_) => password_from_plain(plain@) is None,
        },
        res matches Err(e) ==> (e == ProcessError::IncorrectLength { expected: 1 } <==> plain@.len()
            == 0),
        res matches Err(e) ==> (e == ProcessError::IntParse <==> plain@.len() > 0),
{
    if plain.len() == 0 {
        return Err(ProcessError::IncorrectLength { expected: 1 });
    }
    let ghost digits = plain@.drop_first();
    let mut acc: u64 = 0;
    let mut i: usize = 1;
    assert(digits.take(0) =~= Seq::<u8>::empty());
    while i < plain.len()
        invariant
            1 <= i <= plain@.len(),
            digits == plain@.drop_first(),
            acc as int == digits_fold(digits.take(i - 1)),
            acc <= u32::MAX,
            forall|j: int| 0 <= j < i - 1 ==> #[trigger] digits[j] >= 48,
        decreases plain@.len() - i,
    {
        let b = plain[i];
        assert(b == digits[i - 1]);
        if b < 48 {
            return Err(ProcessError::IntParse);
        }
        assert(digits.take(i as int).drop_last() =~= digits.take(i - 1));
        let next: u64 = acc * 10 + (b - 48) as u64;
        if next > 0xffff_ffff {
            proof {
                if forall|j: int| 0 <= j < digits.len() ==> #[trigger] digits[j] >= 48 {
                    lemma_digits_fold_mono(digits, i as int);
                }
            }
            return Err(ProcessError::IntParse);
        }
        acc = next;
        i = i + 1;
    }
    assert(digits.take(digits.len() as int) =~= digits);
    Ok(Password::PasswordCopy(acc as u32))
}

impl Password {
    /// Reads a password as the servers send it: `0` for no copy, `Aw==` for a free copy, and the
    /// base64 encoded, XOR-ed digits of the password otherwise.
    pub fn from_robtop(raw_password_data: &str) -> (res: Result<Password, ProcessError>)
        ensures
            match res {
                Ok(p) => password_of(raw_password_data@) == Some(p),
                Err(_) => password_of(raw_password_data@) is None,
            },
            res matches Err(e) ==> e == password_error(raw_password_data@),
    {
        let cs = chars_of(raw_password_data);
        if cs.len() == 1 && cs[0] == '0' {
            assert(raw_password_data@ =~= seq!['0']);
            return Ok(Password::NoCopy);
        }
        if cs.len() == 4 && cs[0] == 'A' && cs[1] == 'w' && cs[2] == '=' && cs[3] == '=' {
            assert(raw_password_data@ =~= seq!['A', 'w', '=', '=']);
            return Ok(Password::FreeCopy);
        }
        assert(raw_password_data@ != seq!['0']);
        assert(raw_password_data@ != seq!['A', 'w', '=', '=']);
        match base64_decode(raw_password_data) {
            Some(bytes) => {
                if bytes.len() > 32 {
                    return Err(ProcessError::Base64);
                }
                let mut decoded = bytes;
                let key: Vec<u8> = vec![50u8, 54, 51, 54, 52];
                assert(key@ =~= password_key());
                cyclic_xor(&mut decoded, key.as_slice());
                password_from_plain_exec(&decoded)
            },
            None => Err(ProcessError::Base64),
        }
    }

    /// The password as shown to players: `No Copy`, `Free Copy`, or the password padded with zeros
    /// to six digits.
    pub open spec fn spec_display(self) -> Seq<char> {
        match self {
            Password::NoCopy => "No Copy"@,
            Password::FreeCopy => "Free Copy"@,
            Password::PasswordCopy(pw) => zero_padded(decimal(pw as nat), 6),
        }
    }

    /// The password as shown to players.
    pub fn to_display_string(&self) -> (res: String)
        ensures
            res@ == self.spec_display(),
    {
        match self {
            Password::NoCopy => "No Copy".to_string(),
            Password::FreeCopy => "Free Copy".to_string(),
            Password::PasswordCopy(pw) => {
                let digits = format_i128(*pw as i128);
                let n = digits.unicode_len();
                let mut out = String::new();
                let mut k: usize = 0;
                while n < 6 && k < 6 - n
                    invariant
                        n < 6 ==> k <= 6 - n,
                        n >= 6 ==> k == 0,
                        n == decimal(*pw as nat).len(),
                        digits@ == decimal(*pw as nat),
                        out@ == Seq::new(k as nat, |i: int| '0'),
                    decreases 6 - k,
                {
                    push_char(&mut out, '0');
                    assert(out@ =~= Seq::new((k + 1) as nat, |i: int| '0'));
                    k = k + 1;
                }
                out.append(digits.as_str());
                assert(out@ =~= zero_padded(decimal(*pw as nat), 6));
                out
            },
        }
    }
}

/// `s` padded with zeros in front to at least `width` characters.
pub open spec fn zero_padded(s: Seq<char>, width: nat) -> Seq<char> {
    if s.len() >= width {
        s
    } else {
        Seq::new((width - s.len()) as nat, |i: int| '0') + s
    }
}

impl ThunkProcessor for Password {
    type Output = Password;
    type Abstract = Password;
    type Error = ProcessError;

    open spec fn output_view(processed: Password) -> Password {
        processed
    }

    open spec fn decoded(raw: Seq<char>) -> Option<Password> {
        password_of(raw)
    }

    open spec fn encoded(processed: Password) -> Option<Seq<char>> {
        password_text(processed)
    }

    open spec fn reads_back(processed: Password) -> bool {
        true
    }

    open spec fn process_error(raw: Seq<char>, e: ProcessError) -> bool {
        e == password_error(raw)
    }

    open spec fn write_error(processed: Password, e: ProcessError) -> bool {
        e == ProcessError::Unrepresentable
    }

    fn from_unprocessed(unprocessed: &str) -> (res: Result<Password, ProcessError>) {
        Password::from_robtop(unprocessed)
    }

    fn as_unprocessed(processed: &Password) -> (res: Result<String, ProcessError>) {
        match *processed {
            Password::FreeCopy => {
                proof {
                    reveal_strlit("Aw==");
                    lemma_password_roundtrip(*processed);
                }
                Ok("Aw==".to_string())
            },
            Password::NoCopy => {
                proof {
                    reveal_strlit("0");
                    lemma_password_roundtrip(*processed);
                }
                Ok("0".to_string())
            },
            Password::PasswordCopy(pw) => {
                if pw > 999999 {
                    return Err(ProcessError::Unrepresentable);
                }
                let bytes = robtop_encode_level_password(pw);
                let res = base64_encode(bytes.as_slice());
                proof {
                    lemma_password_roundtrip(*processed);
                }
                Ok(res)
            },
        }
    }

    fn copy_output(processed: &Password) -> (res: Password) {
        *processed
    }
}

/// The zero padded digits of a number below `10^n` fold back to the number.
proof fn lemma_padded_digits_fold(value: nat, n: nat)
    requires
        value < pow10(n),
    ensures
        padded_digits(value, n).len() == n,
        forall|i: int| 0 <= i < n ==> #[trigger] padded_digits(value, n)[i] >= 48,
        digits_fold(padded_digits(value, n)) == value,
    decreases n,
{
    if n == 0 {
        assert(value == 0);
    } else {
        let p = pow10((n - 1) as nat);
        assert(value / 10 < p) by (nonlinear_arith)
            requires
                value < 10 * p,
        ;
        lemma_padded_digits_fold(value / 10, (n - 1) as nat);
        let s = padded_digits(value, n);
        assert(s.drop_last() =~= padded_digits(value / 10, (n - 1) as nat));
    }
}

/// A password written by [`Password::as_unprocessed`] reads back as itself, given that the base64
/// engine decodes what it encoded (as [`base64_encode`] states) for the bytes written.
pub proof fn lemma_password_roundtrip(p: Password)
    requires
        password_text(p) is Some,
        p matches Password::PasswordCopy(pw) ==> ({
            let bytes = xor_cycled(password_plain(pw as nat), password_key());
            &&& base64_decoded(base64_encoded(bytes)) == Some(bytes)
            &&& base64_encoded(bytes).len() == 4 * ((bytes.len() + 2) / 3)
        }),
    ensures
        password_of(password_text(p)->0) == Some(p),
{
    if let Password::PasswordCopy(pw) = p {
        let plain = password_plain(pw as nat);
        let bytes = xor_cycled(plain, password_key());
        assert(pow10(6) == 1000000) by {
            reveal_with_fuel(pow10, 7);
        }
        lemma_padded_digits_fold(pw as nat, 6);
        lemma_cyclic_xor_involution(plain, password_key());
        assert(plain.len() == 7);
        assert(bytes.len() == 7);
        assert(base64_encoded(bytes).len() == 12);
        assert(plain.drop_first() =~= padded_digits(pw as nat, 6));
    }
}

impl Password {
    /// The password read from the optional integer other data formats store it as: `-1` is a free
    /// copy, no value no copy, and any other value the password (as the bits of the integer).
    pub fn from_serde_value(value: Option<i32>) -> (res: Password)
        ensures
            res == match value {
                Some(-1i32) => Password::FreeCopy,
                Some(copy) => Password::PasswordCopy(copy as u32),
                None => Password::NoCopy,
            },
    {
        match value {
            Some(-1) => Password::FreeCopy,
            Some(copy) => Password::PasswordCopy(copy as u32),
            None => Password::NoCopy,
        }
    }

    /// The optional integer other data formats store a password as.
    pub fn serde_value(&self) -> (res: Option<i64>)
        ensures
            res == match *self {
                Password::NoCopy => None,
                Password::FreeCopy => Some(-1i64),
                Password::PasswordCopy(p) => Some(p as i64),
            },
    {
        match *self {
            Password::NoCopy => None,
            Password::FreeCopy => Some(-1),
            Password::PasswordCopy(p) => Some(p as i64),
        }
    }
}

} // verus!
