//! Text: comparing strings, and the decimal notation of integers.

use vstd::prelude::*;
use vstd::std_specs::iter::IteratorSpec;
use vstd::string::StringExecFns;

verus! {

broadcast use vstd::string::group_string_axioms;

/// Whether two string slices hold the same characters.
///
/// The two are compared byte by byte: two texts have the same bytes exactly
/// where they have the same characters.
pub fn same_text(a: &str, b: &str) -> (r: bool)
    ensures
        r == (a@ == b@),
{
    let x = a.as_bytes();
    let y = b.as_bytes();
    proof {
        vstd::utf8::encode_utf8_decode_utf8(a@);
        vstd::utf8::encode_utf8_decode_utf8(b@);
    }
    if x.len() != y.len() {
        return false;
    }
    let mut i: usize = 0;
    while i < x.len()
        invariant
            i <= x.len(),
            x.len() == y.len(),
            x@ == vstd::utf8::encode_utf8(a@),
            y@ == vstd::utf8::encode_utf8(b@),
            forall|k: int| 0 <= k < i ==> x@[k] == y@[k],
        decreases x.len() - i,
    {
        if x[i] != y[i] {
            return false;
        }
        i += 1;
    }
    assert(x@ =~= y@);
    true
}

/// Text that can be taken over as a `String`: a `String` itself, or a string
/// slice.
pub trait Text {
    /// The characters of the text.
    spec fn text(&self) -> Seq<char>;

    /// The text as a `String`.
    fn into_string(self) -> (r: String)
        ensures
            r@ == self.text(),
    ;
}

impl Text for String {
    open spec fn text(&self) -> Seq<char> {
        self@
    }

    fn into_string(self) -> (r: String) {
        self
    }
}

impl<'a> Text for &'a str {
    open spec fn text(&self) -> Seq<char> {
        self@
    }

    fn into_string(self) -> (r: String) {
        String::from_str(self)
    }
}

/// The characters of a string, one by one.
pub fn chars_of(s: &str) -> (r: Vec<char>)
    ensures
        r@ == s@,
{
    let mut out: Vec<char> = Vec::new();
    let mut rest = s.chars();
    loop
        invariant
            out@ + rest.remaining() == s@,
            rest.decrease() is Some,
        ensures
            out@ == s@,
        decreases rest.decrease()->0,
    {
        let ghost before = rest;
        match rest.next() {
            Some(c) => {
                proof {
                    assert(before.remaining() == seq![c] + rest.remaining());
                    assert(out@.push(c) + rest.remaining() == out@ + before.remaining());
                }
                out.push(c);
            },
            None => {
                assert(out@ + rest.remaining() == out@);
                break ;
            },
        }
    }
    out
}

/// Whether `c` is one of the ten decimal digits.
pub open spec fn is_digit(c: char) -> bool {
    '0' <= c <= '9'
}

/// The number that the digit `c` stands for.
pub open spec fn digit_of(c: char) -> nat
    recommends
        is_digit(c),
{
    (c as int - '0' as int) as nat
}

/// Whether `s` holds decimal digits only.
pub open spec fn all_digits(s: Seq<char>) -> bool {
    forall|i: int| 0 <= i < s.len() ==> is_digit(#[trigger] s[i])
}

/// The number that a run of decimal digits stands for; 0 for the empty run.
pub open spec fn digits_value(s: Seq<char>) -> nat
    decreases s.len(),
{
    if s.len() == 0 {
        0
    } else {
        digits_value(s.drop_last()) * 10 + digit_of(s.last())
    }
}

/// The number that `s` stands for in decimal notation, if it is one from 0 to
/// `max`: at least one digit, after at most one `+`.
pub open spec fn unsigned_of(s: Seq<char>, max: nat) -> Option<nat> {
    let digits = if s.len() > 0 && s[0] == '+' {
        s.subrange(1, s.len() as int)
    } else {
        s
    };
    if digits.len() > 0 && all_digits(digits) && digits_value(digits) <= max {
        Some(digits_value(digits))
    } else {
        None
    }
}

/// The integer that `s` stands for in decimal notation, if it is one from
/// `min` to `max`: at least one digit, after at most one `+` or `-`.
pub open spec fn signed_of(s: Seq<char>, min: int, max: int) -> Option<int> {
    let signed = s.len() > 0 && (s[0] == '+' || s[0] == '-');
    let digits = if signed {
        s.subrange(1, s.len() as int)
    } else {
        s
    };
    let value = if s.len() > 0 && s[0] == '-' {
        -(digits_value(digits) as int)
    } else {
        digits_value(digits) as int
    };
    if digits.len() > 0 && all_digits(digits) && min <= value <= max {
        Some(value)
    } else {
        None
    }
}

/// A run of digits stands for at least as much as any run that it starts with.
pub proof fn lemma_digits_value_grows(s: Seq<char>, k: int)
    requires
        0 <= k <= s.len(),
    ensures
        digits_value(s.subrange(0, k)) <= digits_value(s),
    decreases s.len(),
{
    if k == s.len() {
        assert(s.subrange(0, k) == s);
    } else {
        lemma_digits_value_grows(s.drop_last(), k);
        assert(s.drop_last().subrange(0, k) == s.subrange(0, k));
    }
}

/// The number that `c` stands for, if it is a decimal digit.
pub fn digit_value(c: char) -> (r: Option<u64>)
    ensures
        r is Some <==> is_digit(c),
        r matches Some(d) ==> d == digit_of(c),
{
    match c {
        '0' => Some(0),
        '1' => Some(1),
        '2' => Some(2),
        '3' => Some(3),
        '4' => Some(4),
        '5' => Some(5),
        '6' => Some(6),
        '7' => Some(7),
        '8' => Some(8),
        '9' => Some(9),
        _ => None,
    }
}

/// Reads the digits of `chars` from `from` on as a number from 0 to `max`.
pub fn read_digits(chars: &Vec<char>, from: usize, max: u64) -> (r: Option<u64>)
    requires
        from <= chars.len(),
    ensures
        r is Some <==> {
            let digits = chars@.subrange(from as int, chars.len() as int);
            digits.len() > 0 && all_digits(digits) && digits_value(digits) <= max
        },
        r matches Some(n) ==> n == digits_value(chars@.subrange(from as int, chars.len() as int)),
{
    let ghost digits = chars@.subrange(from as int, chars.len() as int);
    if from == chars.len() {
        return None;
    }
    let mut value: u64 = 0;
    let mut i: usize = from;
    while i < chars.len()
        invariant
            from <= i <= chars.len(),
            digits == chars@.subrange(from as int, chars.len() as int),
            all_digits(digits.subrange(0, i - from)),
            value == digits_value(digits.subrange(0, i - from)),
            value <= max,
        decreases chars.len() - i,
    {
        let c = chars[i];
        assert(c == digits[i - from]);
        let d: u64 = match digit_value(c) {
            Some(d) => d,
            None => {
                return None;
            },
        };
        let ghost next = digits.subrange(0, i - from + 1);
        proof {
            assert(next.drop_last() == digits.subrange(0, i - from));
            assert(next.last() == c);
            assert(digits_value(next) == value * 10 + d);
            lemma_digits_value_grows(digits, i - from + 1);
        }
        if max < d || value > (max - d) / 10 {
            return None;
        }
        value = value * 10 + d;
        i += 1;
    }
    assert(digits.subrange(0, i - from) == digits);
    Some(value)
}

/// Reads the characters of `chars` from `from` on as a number from 0 to
/// `max`.
pub fn read_unsigned(chars: &Vec<char>, from: usize, max: u64) -> (r: Option<u64>)
    requires
        from <= chars.len(),
    ensures
        r is Some <==> unsigned_of(chars@.subrange(from as int, chars.len() as int), max as nat) is Some,
        r matches Some(n) ==> unsigned_of(chars@.subrange(from as int, chars.len() as int), max as nat) == Some(
            n as nat,
        ),
{
    let ghost text = chars@.subrange(from as int, chars.len() as int);
    let start: usize = if from < chars.len() && chars[from] == '+' {
        from + 1
    } else {
        from
    };
    proof {
        if start > from {
            assert(text.subrange(1, text.len() as int) == chars@.subrange(start as int, chars.len() as int));
        }
    }
    read_digits(chars, start, max)
}

/// Reads a string as a number from 0 to `max`.
pub fn parse_unsigned(s: &str, max: u64) -> (r: Option<u64>)
    ensures
        r is Some <==> unsigned_of(s@, max as nat) is Some,
        r matches Some(n) ==> unsigned_of(s@, max as nat) == Some(n as nat),
{
    let chars = chars_of(s);
    assert(chars@.subrange(0, chars.len() as int) == chars@);
    read_unsigned(&chars, 0, max)
}

/// The character that stands for the digit `d`.
pub open spec fn digit_char(d: nat) -> char
    recommends
        d < 10,
{
    if d == 0 {
        '0'
    } else if d == 1 {
        '1'
    } else if d == 2 {
        '2'
    } else if d == 3 {
        '3'
    } else if d == 4 {
        '4'
    } else if d == 5 {
        '5'
    } else if d == 6 {
        '6'
    } else if d == 7 {
        '7'
    } else if d == 8 {
        '8'
    } else {
        '9'
    }
}

/// The decimal notation of `n`: its digits, the most significant first, with
/// no leading zero but for 0 itself.
pub open spec fn decimal_of(n: nat) -> Seq<char>
    decreases n,
{
    if n < 10 {
        seq![digit_char(n)]
    } else {
        decimal_of(n / 10).push(digit_char(n % 10))
    }
}

/// The decimal notation of a number is read back as that number.
pub proof fn lemma_decimal_is_read_back(n: nat, max: nat)
    requires
        n <= max,
    ensures
        decimal_of(n).len() > 0,
        all_digits(decimal_of(n)),
        digits_value(decimal_of(n)) == n,
        unsigned_of(decimal_of(n), max) == Some(n),
    decreases n,
{
    let text = decimal_of(n);
    if n < 10 {
        assert(text.drop_last() == Seq::<char>::empty());
        assert(digits_value(text) == digits_value(text.drop_last()) * 10 + digit_of(text.last()));
    } else {
        lemma_decimal_is_read_back(n / 10, max);
        assert(text.drop_last() == decimal_of(n / 10));
        assert(text.last() == digit_char(n % 10));
        assert(text[0] == decimal_of(n / 10)[0]);
    }
    assert(is_digit(text[0]));
}

/// Appends the decimal notation of `n` to `out`.
pub fn push_decimal(out: &mut String, n: u64)
    ensures
        final(out)@ == old(out)@ + decimal_of(n as nat),
    decreases n,
{
    if n >= 10 {
        push_decimal(out, n / 10);
    }
    let ghost before = out@;
    let digit: &'static str = match n % 10 {
        0 => "0",
        1 => "1",
        2 => "2",
        3 => "3",
        4 => "4",
        5 => "5",
        6 => "6",
        7 => "7",
        8 => "8",
        _ => "9",
    };
    proof {
        reveal_strlit("0");
        reveal_strlit("1");
        reveal_strlit("2");
        reveal_strlit("3");
        reveal_strlit("4");
        reveal_strlit("5");
        reveal_strlit("6");
        reveal_strlit("7");
        reveal_strlit("8");
        reveal_strlit("9");
        assert(digit@ == seq![digit_char((n % 10) as nat)]);
    }
    out.append(digit);
    proof {
        if n >= 10 {
            assert(out@ == old(out)@ + decimal_of(n as nat));
        } else {
            assert(out@ == old(out)@ + decimal_of(n as nat));
        }
    }
}

/// Reads a string as a number that fits 64 bits with a sign.
pub fn parse_signed(s: &str) -> (r: Option<i64>)
    ensures
        r is Some <==> signed_of(s@, i64::MIN as int, i64::MAX as int) is Some,
        r matches Some(n) ==> signed_of(s@, i64::MIN as int, i64::MAX as int) == Some(n as int),
{
    let chars = chars_of(s);
    assert(chars@.subrange(0, chars.len() as int) == chars@);
    if chars.len() > 0 && chars[0] == '-' {
        match read_digits(&chars, 1, 0x8000_0000_0000_0000) {
            Some(m) => {
                if m == 0x8000_0000_0000_0000 {
                    Some(i64::MIN)
                } else {
                    Some(-(m as i64))
                }
            },
            None => None,
        }
    } else {
        let from: usize = if chars.len() > 0 && chars[0] == '+' {
            1
        } else {
            0
        };
        match read_digits(&chars, from, 0x7fff_ffff_ffff_ffff) {
            Some(m) => Some(m as i64),
            None => None,
        }
    }
}

/// The decimal notation of the integer `n`, with a `-` before it where `n`
/// is below 0.
pub open spec fn signed_decimal_of(n: int) -> Seq<char> {
    if n < 0 {
        seq!['-'] + decimal_of((-n) as nat)
    } else {
        decimal_of(n as nat)
    }
}

/// The decimal notation of an integer is read back as that integer.
pub proof fn lemma_signed_decimal_is_read_back(n: int, min: int, max: int)
    requires
        min <= n <= max,
    ensures
        signed_of(signed_decimal_of(n), min, max) == Some(n),
{
    let text = signed_decimal_of(n);
    if n < 0 {
        lemma_decimal_is_read_back((-n) as nat, (-n) as nat);
        assert(text.subrange(1, text.len() as int) == decimal_of((-n) as nat));
    } else {
        lemma_decimal_is_read_back(n as nat, n as nat);
        assert(is_digit(text[0]));
    }
}

/// Appends the decimal notation of `n` to `out`.
pub fn push_signed_decimal(out: &mut String, n: i64)
    ensures
        final(out)@ == old(out)@ + signed_decimal_of(n as int),
{
    if n < 0 {
        out.append("-");
        proof {
            reveal_strlit("-");
            assert("-"@ == seq!['-']);
        }
        let magnitude: u64 = if n == i64::MIN {
            0x8000_0000_0000_0000
        } else {
            (-n) as u64
        };
        push_decimal(out, magnitude);
        assert(out@ == old(out)@ + signed_decimal_of(n as int));
    } else {
        push_decimal(out, n as u64);
    }
}

} // verus!
