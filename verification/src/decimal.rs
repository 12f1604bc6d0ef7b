//! Decimal text for unsigned integers: rendering and parsing.
//!
//! Parsing follows the rules of `usize`'s `FromStr`: an optional `+`, then
//! at least one ASCII digit, and a value that fits in `usize`.

use vstd::prelude::*;
use vstd::string::*;

verus! {

/// Why a text is not a decimal `usize`.
#[derive(Clone, Copy, Debug, PartialEq, Eq, Structural)]
pub enum ParseError {
    /// The text is empty.
    Empty,
    /// A character that is not a digit stands where a digit is expected.
    InvalidDigit,
    /// The value does not fit in `usize`.
    Overflow,
}

impl ParseError {
    /// The message of the error, worded as std's `ParseIntError` words it.
    pub open spec fn message(self) -> Seq<char> {
        match self {
            ParseError::Empty => "cannot parse integer from empty string"@,
            ParseError::InvalidDigit => "invalid digit found in string"@,
            ParseError::Overflow => "number too large to fit in target type"@,
        }
    }

    /// The message of the error.
    pub fn to_string(&self) -> (s: String)
        ensures
            s@ == self.message(),
    {
        match self {
            ParseError::Empty => String::from_str("cannot parse integer from empty string"),
            ParseError::InvalidDigit => String::from_str("invalid digit found in string"),
            ParseError::Overflow => String::from_str("number too large to fit in target type"),
        }
    }
}

pub open spec fn is_digit(c: char) -> bool {
    '0' <= c && c <= '9'
}

pub open spec fn digit_value(c: char) -> nat {
    (c as int - '0' as int) as nat
}

pub open spec fn digit_char(d: nat) -> char
    recommends
        d < 10,
{
    ((d + '0' as int) as u32) as char
}

/// The decimal digits of `n`, most significant first, without leading zeros.
pub open spec fn decimal(n: nat) -> Seq<char>
    decreases n,
{
    if n < 10 {
        seq![digit_char(n)]
    } else {
        decimal(n / 10).push(digit_char(n % 10))
    }
}

/// Reads a sequence of characters left to right as decimal digits,
/// stopping at the first one that is not a digit or that makes the value
/// exceed `usize::MAX`.
pub open spec fn digits_outcome(d: Seq<char>) -> Result<nat, ParseError>
    decreases d.len(),
{
    if d.len() == 0 {
        Ok(0)
    } else {
        match digits_outcome(d.drop_last()) {
            Err(e) => Err(e),
            Ok(v) => {
                if !is_digit(d.last()) {
                    Err(ParseError::InvalidDigit)
                } else if v * 10 + digit_value(d.last()) > usize::MAX {
                    Err(ParseError::Overflow)
                } else {
                    Ok(v * 10 + digit_value(d.last()))
                }
            },
        }
    }
}

/// What parsing `s` as a `usize` gives.
pub open spec fn parse_outcome(s: Seq<char>) -> Result<nat, ParseError> {
    if s.len() == 0 {
        Err(ParseError::Empty)
    } else {
        let d = if s[0] == '+' { s.drop_first() } else { s };
        if d.len() == 0 {
            Err(ParseError::InvalidDigit)
        } else {
            digits_outcome(d)
        }
    }
}

fn digit_str(d: usize) -> (s: &'static str)
    requires
        d < 10,
    ensures
        s@ == seq![digit_char(d as nat)],
{
    proof {
        reveal_strlit("0");
        reveal_strlit("1");
        reveal_strlit("2");
        reveal_strlit("3");
        reveal_strlit("4");
        reveal_strlit("5");
        reveal_strlit("6");
        reveal_strlit("7");
        reveal_strlit("8");
        reveal_strlit("9");
    }
    if d == 0 {
        "0"
    } else if d == 1 {
        "1"
    } else if d == 2 {
        "2"
    } else if d == 3 {
        "3"
    } else if d == 4 {
        "4"
    } else if d == 5 {
        "5"
    } else if d == 6 {
        "6"
    } else if d == 7 {
        "7"
    } else if d == 8 {
        "8"
    } else {
        "9"
    }
}

/// Renders `n` in decimal, as `n.to_string()` does.
pub fn to_decimal(n: usize) -> (s: String)
    ensures
        s@ == decimal(n as nat),
    decreases n,
{
    if n < 10 {
        String::from_str(digit_str(n))
    } else {
        let high = to_decimal(n / 10);
        high.concat(digit_str(n % 10))
    }
}

proof fn lemma_overflow_check(acc: int, dv: int, max: int)
    by (nonlinear_arith)
    requires
        0 <= acc,
        0 <= dv < 10,
        dv <= max,
    ensures
        (acc > (max - dv) / 10) <==> (acc * 10 + dv > max),
{
}

/// Parses `s` as a decimal `usize`, as `s.parse::<usize>()` does.
pub fn parse_usize(s: &str) -> (r: Result<usize, ParseError>)
    ensures
        match r {
            Ok(v) => parse_outcome(s@) == Ok::<nat, ParseError>(v as nat),
            Err(e) => parse_outcome(s@) == Err::<nat, ParseError>(e),
        },
{
    let len = s.unicode_len();
    if len == 0 {
        return Err(ParseError::Empty);
    }
    let start: usize = if s.get_char(0) == '+' { 1 } else { 0 };
    if start == len {
        return Err(ParseError::InvalidDigit);
    }
    let ghost d = s@.subrange(start as int, len as int);
    assert(d == (if s@[0] == '+' { s@.drop_first() } else { s@ }));
    let mut acc: usize = 0;
    let mut i: usize = start;
    assert(d.take(0) =~= Seq::<char>::empty());
    assert(parse_outcome(s@) == digits_outcome(d));
    while i < len
        invariant
            parse_outcome(s@) == digits_outcome(d),
            start <= i <= len,
            len == s@.len(),
            d == s@.subrange(start as int, len as int),
            digits_outcome(d.take(i - start)) == Ok::<nat, ParseError>(acc as nat),
        decreases len - i,
    {
        let c = s.get_char(i);
        let ghost k = i - start;
        assert(d.take(k + 1).drop_last() =~= d.take(k));
        assert(d.take(k + 1).last() == c);
        if !('0' <= c && c <= '9') {
            assert(d.take(k + 1).len() > 0);
            proof {
                let p = d.take(k + 1);
                assert(digits_outcome(p) == Err::<nat, ParseError>(ParseError::InvalidDigit));
            }
            assert(digits_outcome(d.take(len - start)) == Err::<nat, ParseError>(ParseError::InvalidDigit)) by {
                lemma_error_persists(d, k + 1, len - start);
            }
            assert(d.take(len - start) =~= d);
            return Err(ParseError::InvalidDigit);
        }
        let dv: usize = (c as u32 - '0' as u32) as usize;
        assert(dv as nat == digit_value(c));
        proof {
            lemma_overflow_check(acc as int, dv as int, usize::MAX as int);
        }
        if acc > (usize::MAX - dv) / 10 {
            assert(digits_outcome(d.take(len - start)) == Err::<nat, ParseError>(ParseError::Overflow)) by {
                lemma_error_persists(d, k + 1, len - start);
            }
            assert(d.take(len - start) =~= d);
            return Err(ParseError::Overflow);
        }
        acc = acc * 10 + dv;
        i = i + 1;
    }
    assert(d.take(len - start) =~= d);
    Ok(acc)
}

/// Once reading a prefix has failed, reading any longer prefix fails the same way.
proof fn lemma_error_persists(d: Seq<char>, k: int, m: int)
    requires
        0 <= k <= m <= d.len(),
        digits_outcome(d.take(k)) is Err,
    ensures
        digits_outcome(d.take(m)) == digits_outcome(d.take(k)),
    decreases m - k,
{
    if m > k {
        lemma_error_persists(d, k, m - 1);
        assert(d.take(m).drop_last() =~= d.take(m - 1));
    }
}

proof fn lemma_decimal_digits(n: nat)
    requires
        n <= usize::MAX,
    ensures
        decimal(n).len() > 0,
        forall|i: int| 0 <= i < decimal(n).len() ==> is_digit(#[trigger] decimal(n)[i]),
        digits_outcome(decimal(n)) == Ok::<nat, ParseError>(n),
    decreases n,
{
    let last = digit_char(n % 10);
    assert(is_digit(last) && digit_value(last) == n % 10);
    if n < 10 {
        assert(decimal(n).drop_last() =~= Seq::<char>::empty());
        assert(digits_outcome(decimal(n).drop_last()) == Ok::<nat, ParseError>(0));
    } else {
        lemma_decimal_digits(n / 10);
        assert(decimal(n).drop_last() =~= decimal(n / 10));
        assert(decimal(n).last() == last);
        assert((n / 10) * 10 + n % 10 == n);
    }
}

/// Parsing the decimal text of a number gives that number back.
pub proof fn law_parse_decimal(n: usize)
    ensures
        parse_outcome(decimal(n as nat)) == Ok::<nat, ParseError>(n as nat),
{
    lemma_decimal_digits(n as nat);
    assert(is_digit(decimal(n as nat)[0]));
}


proof fn lemma_digits_only(d: Seq<char>)
    ensures
        digits_outcome(d) matches Ok(v) ==> v <= usize::MAX && forall|i: int|
            0 <= i < d.len() ==> is_digit(#[trigger] d[i]),
        digits_outcome(d) != Err::<nat, ParseError>(ParseError::Empty),
    decreases d.len(),
{
    if d.len() > 0 {
        lemma_digits_only(d.drop_last());
        if digits_outcome(d) is Ok {
            assert forall|i: int| 0 <= i < d.len() implies is_digit(#[trigger] d[i]) by {
                if i < d.len() - 1 {
                    assert(d[i] == d.drop_last()[i]);
                }
            }
        }
    }
}

/// Parsing accepts only an optional `+` followed by digits and gives a value
/// that fits in `usize`; it reports an empty text as empty; and a leading
/// `+` before digits changes nothing.
pub proof fn law_parse_reads_digits(s: Seq<char>)
    ensures
        parse_outcome(s) matches Ok(v) ==> v <= usize::MAX && s.len() > 0 && forall|i: int|
            0 <= i < s.len() && !(i == 0 && s[0] == '+') ==> is_digit(#[trigger] s[i]),
        parse_outcome(s) == Err::<nat, ParseError>(ParseError::Empty) <==> s.len() == 0,
        s.len() > 0 && s[0] != '+' ==> parse_outcome(seq!['+'] + s) == parse_outcome(s),
{
    if s.len() > 0 {
        let d = if s[0] == '+' { s.drop_first() } else { s };
        lemma_digits_only(d);
        if parse_outcome(s) is Ok {
            assert forall|i: int|
                0 <= i < s.len() && !(i == 0 && s[0] == '+') implies is_digit(#[trigger] s[i]) by {
                if s[0] == '+' {
                    assert(s[i] == d[i - 1]);
                } else {
                    assert(s[i] == d[i]);
                }
            }
        }
        if s[0] != '+' {
            let t = seq!['+'] + s;
            assert(t[0] == '+');
            assert(t.drop_first() =~= s);
        }
    }
}

} // verus!
