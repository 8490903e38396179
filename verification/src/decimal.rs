//! Decimal text of unsigned integers, both ways: rendering a number as its
//! shortest decimal digits, and reading digits back as std's unsigned
//! `parse` does (an optional `+`, then one or more ASCII digits).
use vstd::prelude::*;

verus! {

/// The ASCII digit for `d`, for `d` below ten.
pub open spec fn digit_char(d: nat) -> char {
    seq!['0', '1', '2', '3', '4', '5', '6', '7', '8', '9'][d as int]
}

/// The shortest decimal writing of `n`, most significant digit first.
pub open spec fn decimal(n: nat) -> Seq<char>
    decreases n,
{
    if n < 10 {
        seq![digit_char(n)]
    } else {
        decimal(n / 10).push(digit_char(n % 10))
    }
}

/// Whether `c` is one of the ASCII digits `0` to `9`.
pub open spec fn is_digit(c: char) -> bool {
    '0' <= c && c <= '9'
}

/// The value of an ASCII digit.
pub open spec fn digit_value(c: char) -> nat {
    (c as int - '0' as int) as nat
}

/// Whether every character of `s` is an ASCII digit.
pub open spec fn all_digits(s: Seq<char>) -> bool {
    forall|i: int| 0 <= i < s.len() ==> is_digit(#[trigger] s[i])
}

/// The value of a string of ASCII digits, read most significant first.
pub open spec fn digits_value(s: Seq<char>) -> nat
    decreases s.len(),
{
    if s.len() == 0 {
        0
    } else {
        digits_value(s.drop_last()) * 10 + digit_value(s.last())
    }
}

/// What remains of `s` once one leading `+`, if any, is taken off.
pub open spec fn unsigned_body(s: Seq<char>) -> Seq<char> {
    if s.len() > 0 && s[0] == '+' {
        s.drop_first()
    } else {
        s
    }
}

/// What std's `parse` gives for an unsigned type whose largest value is
/// `max`: the value when `s` is an optional `+` followed by at least one
/// digit and that value fits, else nothing.
pub open spec fn parse_unsigned(s: Seq<char>, max: nat) -> Option<nat> {
    let body = unsigned_body(s);
    if body.len() > 0 && all_digits(body) && digits_value(body) <= max {
        Some(digits_value(body))
    } else {
        None
    }
}

/// The one-character string for a digit below ten.
fn digit_str(d: u128) -> (s: &'static str)
    requires
        d < 10,
    ensures
        s@ == seq![digit_char(d as nat)],
{
    proof {
        reveal_strlit("0");
        reveal_strlit("1");
        reveal_strlit("2");
        reveal_strlit("3");
        reveal_strlit("4");
        reveal_strlit("5");
        reveal_strlit("6");
        reveal_strlit("7");
        reveal_strlit("8");
        reveal_strlit("9");
    }
    if d == 0 {
        "0"
    } else if d == 1 {
        "1"
    } else if d == 2 {
        "2"
    } else if d == 3 {
        "3"
    } else if d == 4 {
        "4"
    } else if d == 5 {
        "5"
    } else if d == 6 {
        "6"
    } else if d == 7 {
        "7"
    } else if d == 8 {
        "8"
    } else {
        "9"
    }
}

/// The decimal writing of `n`, as `to_string` gives it.
pub fn u128_to_string(n: u128) -> (s: String)
    ensures
        s@ == decimal(n as nat),
    decreases n,
{
    if n < 10 {
        String::from_str(digit_str(n))
    } else {
        let mut s = u128_to_string(n / 10);
        s.append(digit_str(n % 10));
        s
    }
}

/// The decimal writing of `n`, as `to_string` gives it.
pub fn u64_to_string(n: u64) -> (s: String)
    ensures
        s@ == decimal(n as nat),
{
    u128_to_string(n as u128)
}

/// The decimal writing of `n`, as `to_string` gives it.
pub fn u32_to_string(n: u32) -> (s: String)
    ensures
        s@ == decimal(n as nat),
{
    u128_to_string(n as u128)
}

/// A digit string is worth at least as much as any of its prefixes.
pub proof fn lemma_digits_value_prefix(s: Seq<char>, j: int, k: int)
    requires
        0 <= j <= k <= s.len(),
    ensures
        digits_value(s.take(j)) <= digits_value(s.take(k)),
    decreases k - j,
{
    if j < k {
        lemma_digits_value_prefix(s, j, k - 1);
        assert(s.take(k).drop_last() =~= s.take(k - 1));
    }
}

/// Reads `s` as std's `parse` reads an unsigned number no larger than `max`.
pub fn parse_bounded(s: &str, max: u128) -> (r: Option<u128>)
    ensures
        match r {
            Some(v) => parse_unsigned(s@, max as nat) == Some(v as nat),
            None => parse_unsigned(s@, max as nat) is None,
        },
{
    let len = s.unicode_len();
    let mut i: usize = 0;
    if len > 0 && s.get_char(0) == '+' {
        i = 1;
    }
    let start = i;
    let ghost body = unsigned_body(s@);
    assert(body =~= s@.subrange(start as int, len as int));
    if start == len {
        return None;
    }
    let mut acc: u128 = 0;
    while i < len
        invariant
            len == s@.len(),
            start <= i <= len,
            body =~= s@.subrange(start as int, len as int),
            body == unsigned_body(s@),
            all_digits(body.take(i - start)),
            acc as nat == digits_value(body.take(i - start)),
            acc <= max,
        decreases len - i,
    {
        let c = s.get_char(i);
        if !('0' <= c && c <= '9') {
            assert(body[i - start] == c);
            assert(!is_digit(body[i - start]));
            return None;
        }
        let d: u128 = (c as u32 - '0' as u32) as u128;
        assert(body.take(i + 1 - start).drop_last() =~= body.take(i - start));
        assert(body.take(i + 1 - start).last() == c);
        if d > max || acc > (max - d) / 10 {
            proof {
                assert(digits_value(body.take(i + 1 - start)) == acc * 10 + d);
                if d <= max {
                    assert(acc * 10 + d > max) by (nonlinear_arith)
                        requires
                            acc > (max - d) / 10,
                            d <= max,
                    ;
                }
                if all_digits(body) {
                    lemma_digits_value_prefix(body, i + 1 - start, body.len() as int);
                    assert(body.take(body.len() as int) =~= body);
                }
            }
            return None;
        }
        proof {
            assert(acc * 10 + d <= max) by (nonlinear_arith)
                requires
                    acc <= (max - d) / 10,
                    d <= max,
            ;
        }
        acc = acc * 10 + d;
        i = i + 1;
    }
    assert(body.take(len - start) =~= body);
    Some(acc)
}

/// Each digit character is a digit worth its index.
proof fn lemma_digit_char(k: nat)
    requires
        k < 10,
    ensures
        is_digit(digit_char(k)),
        digit_value(digit_char(k)) == k,
{
    let t = seq!['0', '1', '2', '3', '4', '5', '6', '7', '8', '9'];
    assert(t[0] == '0' && t[1] == '1' && t[2] == '2' && t[3] == '3' && t[4] == '4');
    assert(t[5] == '5' && t[6] == '6' && t[7] == '7' && t[8] == '8' && t[9] == '9');
}

/// The decimal writing of a number is made of digits and is worth the number.
pub proof fn lemma_decimal_digits(n: nat)
    ensures
        decimal(n).len() > 0,
        all_digits(decimal(n)),
        digits_value(decimal(n)) == n,
    decreases n,
{
    lemma_digit_char(n % 10);
    if n < 10 {
        let d = decimal(n);
        assert(d.drop_last() =~= Seq::<char>::empty());
        assert(digits_value(d.drop_last()) == 0);
        assert(digits_value(d) == digits_value(d.drop_last()) * 10 + digit_value(d.last()));
        assert(n % 10 == n);
    } else {
        lemma_decimal_digits(n / 10);
        let d = decimal(n);
        assert(d.drop_last() =~= decimal(n / 10));
        assert(d.last() == digit_char(n % 10));
        assert(digits_value(d) == digits_value(d.drop_last()) * 10 + digit_value(d.last()));
        assert(n == (n / 10) * 10 + n % 10) by (nonlinear_arith);
        assert forall|i: int| 0 <= i < d.len() implies is_digit(#[trigger] d[i]) by {
            if i < d.len() - 1 {
                assert(d[i] == decimal(n / 10)[i]);
            }
        }
    }
}

/// Reading back a written number gives the number: `parse` undoes
/// `to_string` for every value that fits.
pub proof fn lemma_parse_undoes_decimal(n: nat, max: nat)
    requires
        n <= max,
    ensures
        parse_unsigned(decimal(n), max) == Some(n),
{
    lemma_decimal_digits(n);
    assert(is_digit(decimal(n)[0]));
}

/// Why std's `parse` refuses a text as an unsigned number.
#[derive(Clone, Copy, Debug, PartialEq, Eq, Structural)]
pub enum ParseFailure {
    /// The text is empty.
    Empty,
    /// A character that is not a digit comes first.
    InvalidDigit,
    /// The value grows past the largest one first.
    PosOverflow,
}

/// Reads the digits of `s` left to right on top of `acc`, stopping at the
/// first character that is no digit or that takes the value past `max`.
pub open spec fn scan_digits(s: Seq<char>, acc: nat, max: nat) -> Result<nat, ParseFailure>
    decreases s.len(),
{
    if s.len() == 0 {
        Ok(acc)
    } else if !is_digit(s[0]) {
        Err(ParseFailure::InvalidDigit)
    } else if acc * 10 + digit_value(s[0]) > max {
        Err(ParseFailure::PosOverflow)
    } else {
        scan_digits(s.drop_first(), acc * 10 + digit_value(s[0]), max)
    }
}

/// What std's `parse` gives for an unsigned type whose largest value is
/// `max`, with the reason of a refusal.
pub open spec fn parse_unsigned_detailed(s: Seq<char>, max: nat) -> Result<nat, ParseFailure> {
    if s.len() == 0 {
        Err(ParseFailure::Empty)
    } else if s == seq!['+'] {
        Err(ParseFailure::InvalidDigit)
    } else {
        scan_digits(unsigned_body(s), 0, max)
    }
}

/// Reads `s` as std's `parse` reads an unsigned number no larger than
/// `max`, telling why when it cannot.
pub fn parse_bounded_detailed(s: &str, max: u128) -> (r: Result<u128, ParseFailure>)
    ensures
        match r {
            Ok(v) => parse_unsigned_detailed(s@, max as nat) == Ok::<nat, ParseFailure>(v as nat),
            Err(e) => parse_unsigned_detailed(s@, max as nat) == Err::<nat, ParseFailure>(e),
        },
        r matches Ok(v) ==> v <= max,
{
    let len = s.unicode_len();
    if len == 0 {
        return Err(ParseFailure::Empty);
    }
    let mut i: usize = 0;
    if s.get_char(0) == '+' {
        if len == 1 {
            assert(s@ =~= seq!['+']);
            return Err(ParseFailure::InvalidDigit);
        }
        i = 1;
    }
    let start = i;
    let ghost body = unsigned_body(s@);
    assert(body =~= s@.subrange(start as int, len as int));
    assert(s@ != seq!['+']);
    assert(body.skip(0) =~= body);
    let mut acc: u128 = 0;
    while i < len
        invariant
            len == s@.len(),
            start <= i <= len,
            body =~= s@.subrange(start as int, len as int),
            acc <= max,
            body == unsigned_body(s@),
            parse_unsigned_detailed(s@, max as nat) == scan_digits(body, 0, max as nat),
            scan_digits(body, 0, max as nat) == scan_digits(
                body.skip(i - start),
                acc as nat,
                max as nat,
            ),
        decreases len - i,
    {
        let ghost rest = body.skip(i - start);
        assert(rest.len() > 0);
        assert(rest[0] == s@[i as int]);
        assert(rest.drop_first() =~= body.skip(i + 1 - start));
        let c = s.get_char(i);
        if !('0' <= c && c <= '9') {
            return Err(ParseFailure::InvalidDigit);
        }
        let d: u128 = (c as u32 - '0' as u32) as u128;
        if d > max || acc > (max - d) / 10 {
            proof {
                if d <= max {
                    assert(acc * 10 + d > max) by (nonlinear_arith)
                        requires
                            acc > (max - d) / 10,
                            d <= max,
                    ;
                }
            }
            return Err(ParseFailure::PosOverflow);
        }
        proof {
            assert(acc * 10 + d <= max) by (nonlinear_arith)
                requires
                    acc <= (max - d) / 10,
                    d <= max,
            ;
        }
        acc = acc * 10 + d;
        i = i + 1;
    }
    assert(body.skip(len - start).len() == 0);
    Ok(acc)
}

/// The value of the digits of `s` read left to right on top of `acc`.
pub open spec fn digits_after(acc: nat, s: Seq<char>) -> nat
    decreases s.len(),
{
    if s.len() == 0 {
        acc
    } else {
        digits_after(acc * 10 + digit_value(s[0]), s.drop_first())
    }
}

/// Reading one more digit at the end multiplies by ten and adds it.
proof fn lemma_digits_after_push(acc: nat, t: Seq<char>, c: char)
    ensures
        digits_after(acc, t.push(c)) == digits_after(acc, t) * 10 + digit_value(c),
    decreases t.len(),
{
    if t.len() == 0 {
        let u = t.push(c);
        assert(u.drop_first() =~= Seq::<char>::empty());
        assert(digits_after(acc * 10 + digit_value(c), u.drop_first()) == acc * 10 + digit_value(c));
        assert(digits_after(acc, u) == digits_after(acc * 10 + digit_value(u[0]), u.drop_first()));
        assert(digits_after(acc, t) == acc);
    } else {
        assert(t.push(c).drop_first() =~= t.drop_first().push(c));
        assert(t.push(c)[0] == t[0]);
        lemma_digits_after_push(acc * 10 + digit_value(t[0]), t.drop_first(), c);
    }
}

/// Reading left to right from nothing gives the digits' value.
proof fn lemma_digits_after_zero(s: Seq<char>)
    ensures
        digits_after(0, s) == digits_value(s),
    decreases s.len(),
{
    if s.len() > 0 {
        lemma_digits_after_zero(s.drop_last());
        lemma_digits_after_push(0, s.drop_last(), s.last());
        assert(s.drop_last().push(s.last()) =~= s);
    }
}

/// More digits never take the value below where it stood.
proof fn lemma_digits_after_grows(acc: nat, s: Seq<char>)
    ensures
        digits_after(acc, s) >= acc,
    decreases s.len(),
{
    if s.len() > 0 {
        lemma_digits_after_grows(acc * 10 + digit_value(s[0]), s.drop_first());
    }
}

/// Scanning succeeds exactly when every character is a digit and the value
/// stays within `max`, and then gives that value.
proof fn lemma_scan_digits(s: Seq<char>, acc: nat, max: nat)
    requires
        acc <= max,
    ensures
        (scan_digits(s, acc, max) is Ok) == (all_digits(s) && digits_after(acc, s) <= max),
        scan_digits(s, acc, max) is Ok ==> scan_digits(s, acc, max) == Ok::<nat, ParseFailure>(
            digits_after(acc, s),
        ),
    decreases s.len(),
{
    if s.len() > 0 {
        let rest = s.drop_first();
        assert(all_digits(s) == (is_digit(s[0]) && all_digits(rest))) by {
            if is_digit(s[0]) && all_digits(rest) {
                assert forall|i: int| 0 <= i < s.len() implies is_digit(#[trigger] s[i]) by {
                    if i > 0 {
                        assert(s[i] == rest[i - 1]);
                    }
                }
            }
            if all_digits(s) {
                assert forall|i: int| 0 <= i < rest.len() implies is_digit(#[trigger] rest[i]) by {
                    assert(rest[i] == s[i + 1]);
                }
            }
        }
        if is_digit(s[0]) {
            let next = acc * 10 + digit_value(s[0]);
            lemma_digits_after_grows(next, rest);
            if next <= max {
                lemma_scan_digits(rest, next, max);
            }
        }
    }
}

/// The detailed reading agrees with the plain one: a text reads as `n`
/// exactly when it is an optional `+` and digits worth `n`, at most `max`.
pub proof fn lemma_detailed_parse_agrees(s: Seq<char>, max: nat)
    ensures
        (parse_unsigned_detailed(s, max) is Ok) == (parse_unsigned(s, max) is Some),
        parse_unsigned_detailed(s, max) matches Ok(n) ==> parse_unsigned(s, max) == Some(n),
{
    if s.len() > 0 && s != seq!['+'] {
        let body = unsigned_body(s);
        if s[0] == '+' {
            assert(body.len() > 0) by {
                if body.len() == 0 {
                    assert(s =~= seq!['+']);
                }
            }
        }
        lemma_scan_digits(body, 0, max);
        lemma_digits_after_zero(body);
    } else if s.len() > 0 {
        assert(unsigned_body(s).len() == 0);
    }
}

/// The worker's count written out in decimal reads back as that count.
pub proof fn lemma_detailed_parse_reads_decimal(n: nat, max: nat)
    requires
        n <= max,
    ensures
        parse_unsigned_detailed(decimal(n), max) == Ok::<nat, ParseFailure>(n),
{
    lemma_parse_undoes_decimal(n, max);
    lemma_detailed_parse_agrees(decimal(n), max);
}

/// The text std's `ParseIntError` shows for each refusal.
pub open spec fn failure_text(e: ParseFailure) -> Seq<char> {
    match e {
        ParseFailure::Empty => "cannot parse integer from empty string"@,
        ParseFailure::InvalidDigit => "invalid digit found in string"@,
        ParseFailure::PosOverflow => "number too large to fit in target type"@,
    }
}

/// The text std's `ParseIntError` shows for a refusal.
pub fn failure_message(e: ParseFailure) -> (r: &'static str)
    ensures
        r@ == failure_text(e),
{
    match e {
        ParseFailure::Empty => "cannot parse integer from empty string",
        ParseFailure::InvalidDigit => "invalid digit found in string",
        ParseFailure::PosOverflow => "number too large to fit in target type",
    }
}

} // verus!
