use vstd::prelude::*;

verus! {

/// Why a text is not an unsigned 64-bit decimal number.
#[derive(Clone, Copy, PartialEq, Eq, Structural, Debug)]
pub enum IntParseError {
    /// The text is empty.
    Empty,
    /// The text holds a character that is not a decimal digit.
    InvalidDigit,
    /// The number does not fit in 64 bits.
    PosOverflow,
}

pub open spec fn is_digit(c: char) -> bool {
    '0' <= c && c <= '9'
}

pub open spec fn all_digits(s: Seq<char>) -> bool {
    forall|i: int| 0 <= i < s.len() ==> is_digit(#[trigger] s[i])
}

pub open spec fn digit_value(c: char) -> nat {
    ((c as u32) - ('0' as u32)) as nat
}

/// The number that a sequence of decimal digits denotes.
pub open spec fn digits_value(s: Seq<char>) -> nat
    decreases s.len(),
{
    if s.len() == 0 {
        0
    } else {
        digits_value(s.drop_last()) * 10 + digit_value(s.last())
    }
}

/// The digits of an unsigned number: the text after one leading `+`, if any.
pub open spec fn unsigned_digits(s: Seq<char>) -> Seq<char> {
    if s.len() > 0 && s[0] == '+' {
        s.subrange(1, s.len() as int)
    } else {
        s
    }
}

/// Reads digits left to right; the first character that is not a digit, or
/// the first digit that takes the value past 64 bits, decides the error.
pub open spec fn digits_result(d: Seq<char>) -> Result<u64, IntParseError>
    decreases d.len(),
{
    if d.len() == 0 {
        Ok(0)
    } else {
        match digits_result(d.drop_last()) {
            Err(e) => Err(e),
            Ok(v) => if !is_digit(d.last()) {
                Err(IntParseError::InvalidDigit)
            } else if v * 10 + digit_value(d.last()) > u64::MAX {
                Err(IntParseError::PosOverflow)
            } else {
                Ok((v * 10 + digit_value(d.last())) as u64)
            },
        }
    }
}

/// What reading `s` as an unsigned 64-bit decimal number gives: an optional
/// leading `+`, then at least one digit.
pub open spec fn parse_u64_spec(s: Seq<char>) -> Result<u64, IntParseError> {
    if s.len() == 0 {
        Err(IntParseError::Empty)
    } else if unsigned_digits(s).len() == 0 {
        Err(IntParseError::InvalidDigit)
    } else {
        digits_result(unsigned_digits(s))
    }
}

proof fn lemma_digits_result(d: Seq<char>)
    requires
        all_digits(d),
        digits_value(d) <= u64::MAX,
    ensures
        digits_result(d) == Ok::<u64, IntParseError>(digits_value(d) as u64),
    decreases d.len(),
{
    if d.len() > 0 {
        assert(all_digits(d.drop_last()));
        lemma_digits_result(d.drop_last());
    }
}

/// The decimal form of a 64-bit number reads back as that number.
pub proof fn lemma_parse_decimal(n: nat)
    requires
        n <= u64::MAX,
    ensures
        parse_u64_spec(decimal_of(n)) == Ok::<u64, IntParseError>(n as u64),
        all_digits(decimal_of(n)),
        decimal_of(n).len() > 0,
{
    lemma_decimal_of(n);
    let d = decimal_of(n);
    assert(is_digit(d[0]));
    assert(unsigned_digits(d) == d);
    lemma_digits_result(d);
}

pub open spec fn digit_char(d: nat) -> char {
    if d == 0 {
        '0'
    } else if d == 1 {
        '1'
    } else if d == 2 {
        '2'
    } else if d == 3 {
        '3'
    } else if d == 4 {
        '4'
    } else if d == 5 {
        '5'
    } else if d == 6 {
        '6'
    } else if d == 7 {
        '7'
    } else if d == 8 {
        '8'
    } else {
        '9'
    }
}

/// The shortest decimal form of `n`.
pub open spec fn decimal_of(n: nat) -> Seq<char>
    decreases n,
{
    if n < 10 {
        seq![digit_char(n)]
    } else {
        decimal_of(n / 10).push(digit_char(n % 10))
    }
}

pub proof fn lemma_decimal_of(n: nat)
    ensures
        decimal_of(n).len() > 0,
        all_digits(decimal_of(n)),
        digits_value(decimal_of(n)) == n,
    decreases n,
{
    let d = n % 10;
    assert(is_digit(digit_char(d)) && digit_value(digit_char(d)) == d) by {
        if d == 0 {} else if d == 1 {} else if d == 2 {} else if d == 3 {} else if d == 4 {}
        else if d == 5 {} else if d == 6 {} else if d == 7 {} else if d == 8 {} else {}
    }
    assert(decimal_of(n).last() == digit_char(d));
    assert(digits_value(decimal_of(n)) == digits_value(decimal_of(n).drop_last()) * 10
        + digit_value(decimal_of(n).last()));
    if n < 10 {
        assert(digits_value(Seq::<char>::empty()) == 0);
        assert(decimal_of(n).drop_last() =~= Seq::<char>::empty());
    } else {
        lemma_decimal_of(n / 10);
        assert(decimal_of(n).drop_last() =~= decimal_of(n / 10));
        assert(n == (n / 10) * 10 + n % 10);
    }
}

/// Reads an unsigned 64-bit decimal number, with an optional leading `+`.
pub fn parse_u64(s: &str) -> (r: Result<u64, IntParseError>)
    ensures
        r == parse_u64_spec(s@),
{
    let n = s.unicode_len();
    if n == 0 {
        return Err(IntParseError::Empty);
    }
    let start: usize = if s.get_char(0) == '+' {
        1
    } else {
        0
    };
    if start == n {
        return Err(IntParseError::InvalidDigit);
    }
    let ghost d = unsigned_digits(s@);
    assert(d =~= s@.subrange(start as int, n as int));
    let mut acc: u64 = 0;
    let mut i: usize = start;
    while i < n
        invariant
            n == s@.len(),
            start <= i <= n,
            d == s@.subrange(start as int, n as int),
            d == unsigned_digits(s@),
            n > 0,
            start < n,
            digits_result(s@.subrange(start as int, i as int)) == Ok::<u64, IntParseError>(acc),
        decreases n - i,
    {
        let c = s.get_char(i);
        let ghost pre = s@.subrange(start as int, i as int);
        let ghost next = s@.subrange(start as int, i + 1);
        assert(next.drop_last() =~= pre);
        assert(next.last() == c);
        assert(s@.subrange(start as int, n as int).subrange(0, (i - start) + 1) =~= next);
        if !('0' <= c && c <= '9') {
            assert(digits_result(next) == Err::<u64, IntParseError>(IntParseError::InvalidDigit));
            proof {
                lemma_digits_result_err(s@.subrange(start as int, n as int), (i - start) as int);
                assert(d.len() > 0);
                assert(parse_u64_spec(s@) == digits_result(d));
            }
            return Err(IntParseError::InvalidDigit);
        }
        let v: u64 = (c as u32 - '0' as u32) as u64;
        assert(v == digit_value(c));
        if acc > (u64::MAX - v) / 10 {
            assert(acc * 10 + v > u64::MAX) by (nonlinear_arith)
                requires
                    acc > (u64::MAX - v) / 10,
                    v <= 9,
            ;
            assert(digits_result(next) == Err::<u64, IntParseError>(IntParseError::PosOverflow));
            proof {
                lemma_digits_result_err(s@.subrange(start as int, n as int), (i - start) as int);
                assert(d.len() > 0);
                assert(parse_u64_spec(s@) == digits_result(d));
            }
            return Err(IntParseError::PosOverflow);
        }
        assert(acc * 10 + v <= u64::MAX) by (nonlinear_arith)
            requires
                acc <= (u64::MAX - v) / 10,
                v <= 9,
        ;
        acc = acc * 10 + v;
        i = i + 1;
    }
    assert(s@.subrange(start as int, n as int) =~= d);
    Ok(acc)
}

/// An error met at position `k` of `d` is the error of all of `d`.
proof fn lemma_digits_result_err(d: Seq<char>, k: int)
    requires
        0 <= k < d.len(),
        digits_result(d.subrange(0, k + 1)) is Err,
    ensures
        digits_result(d) == digits_result(d.subrange(0, k + 1)),
    decreases d.len() - k,
{
    if k + 1 == d.len() {
        assert(d.subrange(0, k + 1) =~= d);
    } else {
        let e = d.subrange(0, k + 2);
        assert(e.drop_last() =~= d.subrange(0, k + 1));
        lemma_digits_result_err(d, k + 1);
    }
}

fn push_digit(s: &mut String, d: u64)
    requires
        d < 10,
    ensures
        final(s)@ == old(s)@.push(digit_char(d as nat)),
{
    proof {
        reveal_strlit("0");
        reveal_strlit("1");
        reveal_strlit("2");
        reveal_strlit("3");
        reveal_strlit("4");
        reveal_strlit("5");
        reveal_strlit("6");
        reveal_strlit("7");
        reveal_strlit("8");
        reveal_strlit("9");
    }
    let ghost s0 = s@;
    if d == 0 {
        s.append("0");
    } else if d == 1 {
        s.append("1");
    } else if d == 2 {
        s.append("2");
    } else if d == 3 {
        s.append("3");
    } else if d == 4 {
        s.append("4");
    } else if d == 5 {
        s.append("5");
    } else if d == 6 {
        s.append("6");
    } else if d == 7 {
        s.append("7");
    } else if d == 8 {
        s.append("8");
    } else {
        s.append("9");
    }
    assert(s@ =~= s0.push(digit_char(d as nat)));
}

/// The shortest decimal form of `n`.
pub fn decimal_text(n: u64) -> (r: String)
    ensures
        r@ == decimal_of(n as nat),
    decreases n,
{
    if n < 10 {
        let mut s = String::new();
        push_digit(&mut s, n);
        assert(s@ =~= decimal_of(n as nat));
        s
    } else {
        let mut s = decimal_text(n / 10);
        push_digit(&mut s, n % 10);
        s
    }
}

} // verus!
