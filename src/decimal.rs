//! Decimal digits of unsigned integers: rendering and reading them.
use vstd::prelude::*;

verus! {

/// Why a decimal integer could not be read.
#[derive(Clone, Copy, Debug, PartialEq, Eq, Structural)]
pub enum IntErrorKind {
    /// The text is empty.
    Empty,
    /// The text holds a character that is not a decimal digit.
    InvalidDigit,
    /// The value does not fit in a `u64`.
    PosOverflow,
}

/// The character of the decimal digit `d`.
pub open spec fn digit_char(d: nat) -> char {
    if d == 0 { '0' }
    else if d == 1 { '1' }
    else if d == 2 { '2' }
    else if d == 3 { '3' }
    else if d == 4 { '4' }
    else if d == 5 { '5' }
    else if d == 6 { '6' }
    else if d == 7 { '7' }
    else if d == 8 { '8' }
    else { '9' }
}

/// `c` is one of the ASCII digits `0` to `9`.
pub open spec fn is_digit(c: char) -> bool {
    48 <= (c as u32) && (c as u32) <= 57
}

/// The value of the decimal digit `c`.
pub open spec fn digit_value(c: char) -> nat {
    ((c as u32) - 48) as nat
}

/// The decimal digits of `n`, most significant first, without leading zeros.
pub open spec fn decimal(n: nat) -> Seq<char>
    decreases n,
{
    if n < 10 {
        seq![digit_char(n)]
    } else {
        decimal(n / 10).push(digit_char(n % 10))
    }
}

/// Reads the digits of `s` left to right into a `u64`, stopping at the first
/// character that is no digit or at the first digit that takes the value past
/// `u64::MAX`.
pub open spec fn read_digits(s: Seq<char>) -> Result<nat, IntErrorKind>
    decreases s.len(),
{
    if s.len() == 0 {
        Ok(0)
    } else {
        match read_digits(s.drop_last()) {
            Err(e) => Err(e),
            Ok(n) => if !is_digit(s.last()) {
                Err(IntErrorKind::InvalidDigit)
            } else if n * 10 + digit_value(s.last()) > u64::MAX {
                Err(IntErrorKind::PosOverflow)
            } else {
                Ok(n * 10 + digit_value(s.last()))
            },
        }
    }
}

/// What reading `s` as an unsigned decimal integer gives: the digits may
/// follow one `+` sign.
pub open spec fn parse_u64_spec(s: Seq<char>) -> Result<u64, IntErrorKind> {
    if s.len() == 0 {
        Err(IntErrorKind::Empty)
    } else if s[0] == '+' && s.len() == 1 {
        Err(IntErrorKind::InvalidDigit)
    } else {
        let digits = if s[0] == '+' { s.drop_first() } else { s };
        match read_digits(digits) {
            Ok(n) => Ok(n as u64),
            Err(e) => Err(e),
        }
    }
}

proof fn lemma_digit_char(d: nat)
    requires
        d < 10,
    ensures
        is_digit(digit_char(d)),
        digit_value(digit_char(d)) == d,
        digit_char(d) != '+',
        digit_char(d) != '.',
{
}

/// The decimal digits of a number hold digits alone.
pub proof fn lemma_decimal_digits(n: nat)
    ensures
        decimal(n).len() > 0,
        forall|i: int| 0 <= i < decimal(n).len() ==> is_digit(#[trigger] decimal(n)[i]),
        forall|i: int| 0 <= i < decimal(n).len() ==> #[trigger] decimal(n)[i] != '.',
        decimal(n)[0] != '+',
    decreases n,
{
    if n < 10 {
        lemma_digit_char(n);
    } else {
        lemma_decimal_digits(n / 10);
        lemma_digit_char(n % 10);
    }
}

proof fn lemma_read_decimal(n: nat)
    requires
        n <= u64::MAX,
    ensures
        read_digits(decimal(n)) == Ok::<nat, IntErrorKind>(n),
    decreases n,
{
    if n < 10 {
        lemma_digit_char(n);
        assert(decimal(n).drop_last() =~= Seq::<char>::empty());
        assert(read_digits(Seq::<char>::empty()) == Ok::<nat, IntErrorKind>(0));
    } else {
        lemma_read_decimal(n / 10);
        lemma_digit_char(n % 10);
        assert(decimal(n).drop_last() =~= decimal(n / 10));
        assert((n / 10) * 10 + n % 10 == n);
    }
}

/// Reading back the decimal digits of a `u64` gives the number.
pub proof fn lemma_parse_decimal(n: u64)
    ensures
        parse_u64_spec(decimal(n as nat)) == Ok::<u64, IntErrorKind>(n),
{
    lemma_decimal_digits(n as nat);
    lemma_read_decimal(n as nat);
}

proof fn lemma_error_persists(s: Seq<char>, from: int, k: int, end: int)
    requires
        0 <= from <= k <= end <= s.len(),
        read_digits(s.subrange(from, k)) is Err,
    ensures
        read_digits(s.subrange(from, end)) == read_digits(s.subrange(from, k)),
    decreases end - k,
{
    if k < end {
        assert(s.subrange(from, k + 1).drop_last() =~= s.subrange(from, k));
        lemma_error_persists(s, from, k + 1, end);
    }
}

fn digit_str(d: u64) -> (r: &'static str)
    requires
        d < 10,
    ensures
        r@ == seq![digit_char(d as nat)],
{
    proof {
        reveal_strlit("0");
        reveal_strlit("1");
        reveal_strlit("2");
        reveal_strlit("3");
        reveal_strlit("4");
        reveal_strlit("5");
        reveal_strlit("6");
        reveal_strlit("7");
        reveal_strlit("8");
        reveal_strlit("9");
    }
    if d == 0 {
        "0"
    } else if d == 1 {
        "1"
    } else if d == 2 {
        "2"
    } else if d == 3 {
        "3"
    } else if d == 4 {
        "4"
    } else if d == 5 {
        "5"
    } else if d == 6 {
        "6"
    } else if d == 7 {
        "7"
    } else if d == 8 {
        "8"
    } else {
        "9"
    }
}

/// Appends the decimal digits of `n` to `out`.
pub fn push_decimal(out: &mut String, n: u64)
    ensures
        final(out)@ == old(out)@ + decimal(n as nat),
    decreases n,
{
    if n >= 10 {
        push_decimal(out, n / 10);
    }
    out.append(digit_str(n % 10));
    proof {
        if n >= 10 {
            assert(old(out)@ + decimal(n as nat) =~= old(out)@ + decimal((n / 10) as nat) + seq![
                digit_char((n % 10) as nat),
            ]);
        } else {
            assert(decimal(n as nat) =~= seq![digit_char((n % 10) as nat)]);
        }
    }
}

/// Reads the characters of `s` from `start` up to `end` as an unsigned
/// decimal integer.
pub fn parse_u64_in(s: &str, start: usize, end: usize) -> (r: Result<u64, IntErrorKind>)
    requires
        start <= end <= s@.len(),
    ensures
        r == parse_u64_spec(s@.subrange(start as int, end as int)),
{
    let ghost t = s@.subrange(start as int, end as int);
    if start == end {
        return Err(IntErrorKind::Empty);
    }
    let mut from: usize = start;
    if s.get_char(start) == '+' {
        if end - start == 1 {
            return Err(IntErrorKind::InvalidDigit);
        }
        from = start + 1;
        assert(t.drop_first() =~= s@.subrange(from as int, end as int));
    } else {
        assert(t =~= s@.subrange(from as int, end as int));
    }
    let mut value: u64 = 0;
    let mut j: usize = from;
    assert(s@.subrange(from as int, from as int) =~= Seq::<char>::empty());
    while j < end
        invariant
            from <= j <= end <= s@.len(),
            parse_u64_spec(s@.subrange(start as int, end as int)) == (match read_digits(
                s@.subrange(from as int, end as int),
            ) {
                Ok(n) => Ok(n as u64),
                Err(e) => Err(e),
            }),
            read_digits(s@.subrange(from as int, j as int)) == Ok::<nat, IntErrorKind>(
                value as nat,
            ),
        decreases end - j,
    {
        let c = s.get_char(j);
        let ghost next = s@.subrange(from as int, j + 1);
        assert(next.drop_last() =~= s@.subrange(from as int, j as int));
        assert(next.last() == c);
        let cv = c as u32;
        if cv < 48 || cv > 57 {
            proof { lemma_error_persists(s@, from as int, j + 1, end as int); }
            return Err(IntErrorKind::InvalidDigit);
        }
        let d = (cv - 48) as u64;
        proof {
            assert(value > (u64::MAX - d) / 10 <==> value * 10 + d > u64::MAX) by (nonlinear_arith)
                requires
                    d < 10,
            ;
        }
        if value > (u64::MAX - d) / 10 {
            proof { lemma_error_persists(s@, from as int, j + 1, end as int); }
            return Err(IntErrorKind::PosOverflow);
        }
        value = value * 10 + d;
        j = j + 1;
    }
    Ok(value)
}

} // verus!
