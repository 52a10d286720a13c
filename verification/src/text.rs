//! Building and reading the short texts that file names, routes and labels are made of.
use vstd::prelude::*;

verus! {

/// The character of a decimal digit.
pub open spec fn digit_char(digit: int) -> char {
    (48 + digit) as char
}

/// A number in decimal notation, without leading zeros.
pub open spec fn decimal(n: nat) -> Seq<char>
    decreases n,
{
    if n < 10 {
        seq![digit_char(n as int)]
    } else {
        decimal(n / 10).push(digit_char((n % 10) as int))
    }
}

/// A number in decimal notation, padded with a zero to two digits.
pub open spec fn two_digits(n: nat) -> Seq<char> {
    if n < 10 {
        seq!['0'] + decimal(n)
    } else {
        decimal(n)
    }
}

/// A signed number in decimal notation.
pub open spec fn signed_decimal(n: int) -> Seq<char> {
    if n < 0 {
        seq!['-'] + decimal((-n) as nat)
    } else {
        decimal(n as nat)
    }
}

/// The parts one after the other, with `separator` between each two of them.
pub open spec fn joined(parts: Seq<Seq<char>>, separator: Seq<char>) -> Seq<char>
    decreases parts.len(),
{
    if parts.len() == 0 {
        Seq::empty()
    } else if parts.len() == 1 {
        parts[0]
    } else {
        joined(parts.drop_last(), separator) + separator + parts.last()
    }
}

/// Whether a character is a decimal digit.
pub open spec fn is_digit(c: char) -> bool {
    '0' <= c && c <= '9'
}

/// The number that a row of decimal digits denotes.
pub open spec fn digits_value(digits: Seq<char>) -> nat
    decreases digits.len(),
{
    if digits.len() == 0 {
        0
    } else {
        10 * digits_value(digits.drop_last()) + (digits.last() as nat - 48) as nat
    }
}

/// The digits of a number's text: the text without the plus sign it may start with.
pub open spec fn unsigned_digits(text: Seq<char>) -> Seq<char> {
    if text.len() > 0 && text[0] == '+' {
        text.drop_first()
    } else {
        text
    }
}

/// The number that a text denotes as a whole, if it denotes one that fits in 64 bits.
pub open spec fn parsed_u64(text: Seq<char>) -> Option<u64> {
    let digits = unsigned_digits(text);
    if digits.len() > 0 && (forall|i: int| 0 <= i < digits.len() ==> is_digit(#[trigger] digits[i]))
        && digits_value(digits) <= u64::MAX {
        Some(digits_value(digits) as u64)
    } else {
        None
    }
}

/// Whether two texts hold the same characters.
pub fn same_text(a: &str, b: &str) -> (same: bool)
    ensures
        same == (a@ == b@),
{
    a.to_string() == b.to_string()
}

fn append_digit(text: &mut String, digit: u64)
    requires
        digit < 10,
    ensures
        final(text)@ == old(text)@.push(digit_char(digit as int)),
{
    let c: &str = match digit {
        0 => "0",
        1 => "1",
        2 => "2",
        3 => "3",
        4 => "4",
        5 => "5",
        6 => "6",
        7 => "7",
        8 => "8",
        _ => "9",
    };
    proof {
        reveal_strlit("0");
        reveal_strlit("1");
        reveal_strlit("2");
        reveal_strlit("3");
        reveal_strlit("4");
        reveal_strlit("5");
        reveal_strlit("6");
        reveal_strlit("7");
        reveal_strlit("8");
        reveal_strlit("9");
        assert(c@ =~= seq![digit_char(digit as int)]);
        assert(old(text)@ + c@ =~= old(text)@.push(digit_char(digit as int)));
    }
    text.append(c);
}

/// Appends a number in decimal notation.
pub fn append_decimal(text: &mut String, n: u64)
    ensures
        final(text)@ == old(text)@ + decimal(n as nat),
    decreases n,
{
    if n < 10 {
        append_digit(text, n);
        assert(old(text)@ + decimal(n as nat) =~= old(text)@.push(digit_char(n as int)));
    } else {
        append_decimal(text, n / 10);
        append_digit(text, n % 10);
        assert(text@ =~= old(text)@ + decimal(n as nat));
    }
}

/// A number in decimal notation.
pub fn decimal_text(n: u64) -> (text: String)
    ensures
        text@ == decimal(n as nat),
{
    let mut text = String::new();
    append_decimal(&mut text, n);
    assert(text@ =~= decimal(n as nat));
    text
}

/// A signed number in decimal notation.
pub fn signed_decimal_text(n: i32) -> (text: String)
    ensures
        text@ == signed_decimal(n as int),
{
    let mut text = String::new();
    let wide: i64 = n as i64;
    if wide < 0 {
        text.append("-");
        append_decimal(&mut text, (-wide) as u64);
        proof {
            reveal_strlit("-");
        }
    } else {
        append_decimal(&mut text, wide as u64);
    }
    assert(text@ =~= signed_decimal(n as int));
    text
}

/// A number in decimal notation, padded with a zero to two digits.
pub fn two_digits_text(n: u64) -> (text: String)
    ensures
        text@ == two_digits(n as nat),
{
    let mut text = String::new();
    if n < 10 {
        text.append("0");
        proof {
            reveal_strlit("0");
        }
    }
    append_decimal(&mut text, n);
    assert(text@ =~= two_digits(n as nat));
    text
}

/// The texts of a list.
pub open spec fn texts(parts: Seq<String>) -> Seq<Seq<char>> {
    parts.map_values(|part: String| part@)
}

/// Joins texts with a separator between each two of them.
pub fn join_texts(parts: &Vec<String>, separator: &str) -> (text: String)
    ensures
        text@ == joined(texts(parts@), separator@),
{
    let mut text = String::new();
    let mut i: usize = 0;
    while i < parts.len()
        invariant
            i <= parts.len(),
            text@ == joined(texts(parts@.take(i as int)), separator@),
        decreases parts.len() - i,
    {
        let ghost shorter = texts(parts@.take(i as int));
        let ghost longer = texts(parts@.take(i + 1));
        assert(longer.drop_last() =~= shorter);
        assert(longer.last() == parts@[i as int]@);
        if i > 0 {
            text.append(separator);
        }
        text.append(parts[i].as_str());
        assert(text@ =~= joined(longer, separator@));
        i += 1;
    }
    assert(parts@.take(i as int) =~= parts@);
    text
}

/// Reads the number that characters `from..to` of a text denote.
pub fn parse_u64(text: &str, from: usize, to: usize) -> (number: Option<u64>)
    requires
        from <= to <= text@.len(),
    ensures
        number == parsed_u64(text@.subrange(from as int, to as int)),
{
    let ghost whole = text@.subrange(from as int, to as int);
    let mut start: usize = from;
    if from < to && text.get_char(from) == '+' {
        start = from + 1;
        assert(whole[0] == text@[from as int]);
        assert(unsigned_digits(whole) =~= text@.subrange(start as int, to as int));
    } else {
        assert(from < to ==> whole[0] == text@[from as int]);
        assert(unsigned_digits(whole) =~= text@.subrange(start as int, to as int));
    }
    let ghost digits = text@.subrange(start as int, to as int);
    if start == to {
        return None;
    }
    let mut value: u64 = 0;
    let mut i: usize = start;
    while i < to
        invariant
            start <= i <= to <= text@.len(),
            start < to,
            digits == text@.subrange(start as int, to as int),
            whole == text@.subrange(from as int, to as int),
            digits == unsigned_digits(whole),
            forall|j: int| 0 <= j < i - start ==> is_digit(#[trigger] digits[j]),
            value == digits_value(digits.take(i - start)),
        decreases to - i,
    {
        let c = text.get_char(i);
        assert(c == digits[i - start]);
        if c < '0' || c > '9' {
            return None;
        }
        let digit: u64 = c as u64 - 48;
        assert(digits.take(i - start + 1).drop_last() =~= digits.take(i - start));
        assert(digits_value(digits.take(i - start + 1)) == 10 * value + digit);
        if value > (u64::MAX - digit) / 10 {
            proof {
                lemma_digits_value_grows(digits, i - start + 1);
            }
            return None;
        }
        value = value * 10 + digit;
        i += 1;
    }
    assert(digits.take(to - start) =~= digits);
    Some(value)
}

proof fn lemma_digits_value_grows(digits: Seq<char>, n: int)
    requires
        0 <= n <= digits.len(),
    ensures
        digits_value(digits.take(n)) <= digits_value(digits),
    decreases digits.len() - n,
{
    if n == digits.len() {
        assert(digits.take(n) =~= digits);
    } else {
        assert(digits.take(n + 1).drop_last() =~= digits.take(n));
        lemma_digits_value_grows(digits, n + 1);
    }
}

/// Decimal notation is made of digits only and denotes the number it was made from.
pub proof fn lemma_decimal_round_trip(n: nat)
    ensures
        decimal(n).len() > 0,
        forall|i: int| 0 <= i < decimal(n).len() ==> is_digit(#[trigger] decimal(n)[i]),
        digits_value(decimal(n)) == n,
    decreases n,
{
    reveal_with_fuel(digits_value, 2);
    if n < 10 {
        assert(decimal(n).drop_last() =~= Seq::<char>::empty());
    } else {
        lemma_decimal_round_trip(n / 10);
        assert(decimal(n).drop_last() =~= decimal(n / 10));
    }
}

/// Reading back the decimal notation of a 64-bit number gives the number.
pub proof fn lemma_parse_reads_decimal(n: u64)
    ensures
        parsed_u64(decimal(n as nat)) == Some(n),
{
    lemma_decimal_round_trip(n as nat);
    assert(is_digit(decimal(n as nat)[0]));
    assert(unsigned_digits(decimal(n as nat)) =~= decimal(n as nat));
}

/// Texts that start with digits and go on with something else right behind them are the same
/// only if the digits are.
pub proof fn lemma_digits_end(a: Seq<char>, a_rest: Seq<char>, b: Seq<char>, b_rest: Seq<char>)
    requires
        forall|i: int| 0 <= i < a.len() ==> is_digit(#[trigger] a[i]),
        forall|i: int| 0 <= i < b.len() ==> is_digit(#[trigger] b[i]),
        a_rest.len() > 0 && !is_digit(a_rest[0]),
        b_rest.len() > 0 && !is_digit(b_rest[0]),
        a + a_rest == b + b_rest,
    ensures
        a == b,
        a_rest == b_rest,
{
    let whole = a + a_rest;
    if a.len() < b.len() {
        assert(whole[a.len() as int] == a_rest[0]);
        assert((b + b_rest)[a.len() as int] == b[a.len() as int]);
    } else if b.len() < a.len() {
        assert(whole[b.len() as int] == a[b.len() as int]);
        assert((b + b_rest)[b.len() as int] == b_rest[0]);
    }
    assert(a =~= whole.take(a.len() as int));
    assert(b =~= (b + b_rest).take(b.len() as int));
    assert(a_rest =~= whole.skip(a.len() as int));
    assert(b_rest =~= (b + b_rest).skip(b.len() as int));
}

/// Decimal notation has no leading zero, but for the number 0 itself, and a number that is larger
/// by a digit at its end is written with that digit at its end.
pub proof fn lemma_decimal_is_written_digit_by_digit(n: nat, digit: nat)
    requires
        digit < 10,
    ensures
        n > 0 ==> decimal(n)[0] != '0',
        n == 0 ==> decimal(n) == seq!['0'],
        n > 0 ==> decimal(10 * n + digit) == decimal(n) + decimal(digit),
        decimal(digit).len() == 1,
        decimal(digit)[0] as int == '0' as int + digit,
    decreases n,
{
    if n > 0 {
        assert((10 * n + digit) / 10 == n && (10 * n + digit) % 10 == digit);
        assert(decimal(10 * n + digit) =~= decimal(n) + decimal(digit));
        if n >= 10 {
            lemma_decimal_is_written_digit_by_digit(n / 10, 0);
            lemma_decimal_round_trip(n / 10);
        }
    } else {
        assert(decimal(0) =~= seq!['0']);
    }
}

/// The value of a row of digits grows tenfold with each further digit, which is added.
pub proof fn lemma_digits_count_tenfold(digits: Seq<char>, last: char)
    requires
        is_digit(last),
    ensures
        digits_value(digits.push(last)) == 10 * digits_value(digits) + (last as int - '0' as int),
        digits_value(Seq::empty()) == 0,
        '0' <= last <= '9',
{
    assert(digits.push(last).drop_last() =~= digits);
}

/// A number of one digit is padded with a zero; any other is written as it is.
pub proof fn lemma_two_digits_are_written(n: nat)
    ensures
        two_digits(n).len() >= 2,
        n < 100 ==> two_digits(n).len() == 2,
        digits_value(two_digits(n)) == n,
        n < 10 ==> two_digits(n)[0] == '0',
        forall|i: int| 0 <= i < two_digits(n).len() ==> is_digit(#[trigger] two_digits(n)[i]),
{
    lemma_decimal_round_trip(n);
    reveal_with_fuel(decimal, 3);
    reveal_with_fuel(digits_value, 3);
    if n < 10 {
        assert(two_digits(n).drop_last() =~= seq!['0']);
        assert(seq!['0'].drop_last() =~= Seq::<char>::empty());
        assert(decimal(n).drop_last() =~= Seq::<char>::empty());
    }
}

/// A negative number is written with a minus sign before its size, any other without a sign.
pub proof fn lemma_sign_is_written(n: int)
    ensures
        n >= 0 ==> signed_decimal(n) == decimal(n as nat),
        n < 0 ==> signed_decimal(n) == seq!['-'] + decimal((-n) as nat),
{
}

/// Joining puts the separator between each two parts and nowhere else.
pub proof fn lemma_joining_separates_the_parts(
    parts: Seq<Seq<char>>,
    last: Seq<char>,
    separator: Seq<char>,
)
    ensures
        joined(Seq::empty(), separator).len() == 0,
        joined(seq![last], separator) == last,
        parts.len() > 0 ==> joined(parts.push(last), separator) == joined(parts, separator)
            + separator + last,
{
    assert(parts.push(last).drop_last() =~= parts);
}

/// A text denotes a number exactly if it consists of digits, with a plus sign before them or not,
/// and their value fits in 64 bits; then it denotes that value.
pub proof fn lemma_text_denotes_a_number(digits: Seq<char>)
    requires
        digits.len() > 0,
        forall|i: int| 0 <= i < digits.len() ==> '0' <= #[trigger] digits[i] <= '9',
    ensures
        digits_value(digits) <= u64::MAX ==> parsed_u64(digits) == Some(digits_value(digits) as u64)
            && parsed_u64(seq!['+'] + digits) == Some(digits_value(digits) as u64),
        digits_value(digits) > u64::MAX ==> parsed_u64(digits) is None,
{
    assert('0' <= digits[0]);
    assert((seq!['+'] + digits).drop_first() =~= digits);
    assert forall|i: int| 0 <= i < digits.len() implies is_digit(#[trigger] digits[i]) by {
        assert('0' <= digits[i] <= '9');
    }
}

/// A text with anything else in it, or with nothing in it, denotes no number.
pub proof fn lemma_other_texts_denote_nothing(text: Seq<char>, i: int)
    requires
        text.len() == 0 || text == seq!['+'] || (0 <= i < text.len() && !('0' <= text[i] <= '9') && (
        i > 0 || text[i] != '+')),
    ensures
        parsed_u64(text) is None,
{
    let digits = unsigned_digits(text);
    if text.len() > 0 && text != seq!['+'] {
        if text[0] == '+' {
            assert(digits[i - 1] == text[i]);
        } else {
            assert(digits[i] == text[i]);
        }
    } else if text.len() > 0 {
        assert(digits.len() == 0);
    }
}

} // verus!
