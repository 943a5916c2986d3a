//! Decimal numbers and small helpers on text.
use vstd::prelude::*;
use vstd::string::*;

verus! {

/// The character of a decimal digit.
pub open spec fn digit_char(d: int) -> char {
    (48 + d) as char
}

/// The decimal digits of a natural number, most significant first, without leading zeros.
pub open spec fn decimal_digits(n: nat) -> Seq<char>
    decreases n,
{
    if n < 10 {
        seq![digit_char(n as int)]
    } else {
        decimal_digits(n / 10).push(digit_char((n % 10) as int))
    }
}

/// An integer in decimal, with a leading `-` where it is negative.
pub open spec fn decimal(n: int) -> Seq<char> {
    if n < 0 {
        seq!['-'] + decimal_digits((-n) as nat)
    } else {
        decimal_digits(n as nat)
    }
}

/// An integer in decimal, filled up with zeros between the sign and the digits to at least
/// `width` characters.
pub open spec fn zero_padded(n: int, width: nat) -> Seq<char> {
    let sign = if n < 0 { seq!['-'] } else { seq![] };
    let digits = decimal_digits((if n < 0 { -n } else { n }) as nat);
    let missing = width - sign.len() - digits.len();
    sign + Seq::new((if missing < 0 { 0 } else { missing }) as nat, |i: int| '0') + digits
}

/// The number that decimal digits stand for.
pub open spec fn number(digits: Seq<char>) -> int
    decreases digits.len(),
{
    if digits.len() == 0 {
        0
    } else {
        10 * number(digits.drop_last()) + (digits.last() as int - 48)
    }
}

/// The integer that a text in decimal stands for, with or without a sign.
pub open spec fn integer(text: Seq<char>) -> int {
    if text.len() > 0 && text[0] == '-' {
        -number(text.skip(1))
    } else {
        number(text)
    }
}

/// Whether a text is made of decimal digits alone.
pub open spec fn all_digits(text: Seq<char>) -> bool {
    forall|i: int| 0 <= i < text.len() ==> '0' <= #[trigger] text[i] <= '9'
}

proof fn lemma_digits_read_back(n: nat)
    ensures
        number(decimal_digits(n)) == n,
        all_digits(decimal_digits(n)),
        decimal_digits(n).len() > 0,
        decimal_digits(n)[0] == '0' ==> n == 0,
        n == 0 ==> decimal_digits(n).len() == 1,
    decreases n,
{
    let digits = decimal_digits(n);
    if n < 10 {
        assert(digits.drop_last() =~= seq![]);
        assert(number(digits.drop_last()) == 0);
    } else {
        let front = decimal_digits(n / 10);
        lemma_digits_read_back(n / 10);
        assert(digits.drop_last() =~= front);
        assert forall|i: int| 0 <= i < digits.len() implies '0' <= #[trigger] digits[i] <= '9' by {
            if i < front.len() {
                assert(digits[i] == front[i]);
            }
        }
        assert(digits[0] == front[0]);
    }
}

proof fn lemma_leading_zeros(k: nat, digits: Seq<char>)
    ensures
        number(Seq::new(k, |i: int| '0') + digits) == number(digits),
    decreases k, digits.len(),
{
    let zeros = Seq::new(k, |i: int| '0');
    let all = zeros + digits;
    if digits.len() > 0 {
        lemma_leading_zeros(k, digits.drop_last());
        assert(all.drop_last() =~= zeros + digits.drop_last());
        assert(all.last() == digits.last());
    } else if k > 0 {
        let fewer = Seq::new((k - 1) as nat, |i: int| '0');
        lemma_leading_zeros((k - 1) as nat, digits);
        assert(all.drop_last() =~= fewer + digits);
        assert(all.last() == '0');
    } else {
        assert(all =~= digits);
    }
}

/// A number that is written in decimal reads back as itself, and is written with digits alone
/// behind its sign and without zeros in front.
pub proof fn lemma_decimal_reads_back(n: int)
    ensures
        integer(decimal(n)) == n,
        n >= 0 ==> all_digits(decimal(n)),
        n < 0 ==> decimal(n)[0] == '-' && all_digits(decimal(n).skip(1)),
        n > 0 ==> decimal(n)[0] != '0',
        n < 0 ==> decimal(n)[1] != '0',
        n == 0 ==> decimal(n).len() == 1,
{
    let digits = decimal_digits((if n < 0 { -n } else { n }) as nat);
    lemma_digits_read_back((if n < 0 { -n } else { n }) as nat);
    if n < 0 {
        assert(decimal(n).skip(1) =~= digits);
        assert(decimal(n)[1] == digits[0]);
    }
}

/// A number that is filled up with zeros reads back as itself, is written with digits alone
/// behind its sign, and is no longer than it needs to be.
pub proof fn lemma_zero_padded_reads_back(n: int, width: nat)
    ensures
        integer(zero_padded(n, width)) == n,
        n >= 0 ==> all_digits(zero_padded(n, width)),
        n < 0 ==> zero_padded(n, width)[0] == '-' && all_digits(zero_padded(n, width).skip(1)),
        zero_padded(n, width).len() == if decimal(n).len() < width {
            width
        } else {
            decimal(n).len()
        },
{
    let m = (if n < 0 { -n } else { n }) as nat;
    let digits = decimal_digits(m);
    lemma_digits_read_back(m);
    let sign = if n < 0 { seq!['-'] } else { seq![] };
    let missing = width - sign.len() - digits.len();
    let k = (if missing < 0 { 0 } else { missing }) as nat;
    let filled = Seq::new(k, |i: int| '0') + digits;
    lemma_leading_zeros(k, digits);
    let text = zero_padded(n, width);
    assert(all_digits(filled)) by {
        assert forall|i: int| 0 <= i < filled.len() implies '0' <= #[trigger] filled[i] <= '9' by {
            if i >= k {
                assert(filled[i] == digits[i - k]);
            }
        }
    }
    if n < 0 {
        assert(text.skip(1) =~= filled);
    } else {
        assert(text =~= filled);
        assert(filled[0] != '-');
    }
}

fn digit_text(d: u64) -> (r: &'static str)
    requires
        d < 10,
    ensures
        r@ == seq![digit_char(d as int)],
{
    proof {
        reveal_strlit("0");
        reveal_strlit("1");
        reveal_strlit("2");
        reveal_strlit("3");
        reveal_strlit("4");
        reveal_strlit("5");
        reveal_strlit("6");
        reveal_strlit("7");
        reveal_strlit("8");
        reveal_strlit("9");
    }
    match d {
        0 => "0",
        1 => "1",
        2 => "2",
        3 => "3",
        4 => "4",
        5 => "5",
        6 => "6",
        7 => "7",
        8 => "8",
        _ => "9",
    }
}

fn append_digits(out: &mut String, n: u64)
    ensures
        final(out)@ == old(out)@ + decimal_digits(n as nat),
    decreases n,
{
    if n >= 10 {
        append_digits(out, n / 10);
    }
    out.append(digit_text(n % 10));
}

fn magnitude(n: i64) -> (r: u64)
    ensures
        r == if n < 0 { -n } else { n as int },
{
    if n == i64::MIN {
        9223372036854775808
    } else if n < 0 {
        (-n) as u64
    } else {
        n as u64
    }
}

/// Writes an integer in decimal.
pub fn decimal_text(n: i64) -> (r: String)
    ensures
        r@ == decimal(n as int),
{
    let mut out = String::new();
    if n < 0 {
        proof {
            reveal_strlit("-");
        }
        out.append("-");
    }
    append_digits(&mut out, magnitude(n));
    out
}

/// No 64-bit number has more than twenty digits.
proof fn lemma_digits_of_u64(n: u64)
    ensures
        decimal_digits(n as nat).len() <= 20,
{
    reveal_with_fuel(decimal_digits, 21);
}

/// No 64-bit number with a sign takes more than twenty-one characters.
pub proof fn lemma_decimal_length(n: int)
    requires
        i64::MIN <= n <= i64::MAX,
    ensures
        decimal(n).len() <= 21,
{
    lemma_digits_of_u64((if n < 0 { -n } else { n }) as u64);
}

fn digit_count(n: u64) -> (r: usize)
    ensures
        r == decimal_digits(n as nat).len(),
        r <= 20,
    decreases n,
{
    proof {
        lemma_digits_of_u64(n);
    }
    if n < 10 {
        1
    } else {
        digit_count(n / 10) + 1
    }
}

/// Writes an integer in decimal, filled up with zeros to at least `width` characters.
pub fn zero_padded_text(n: i64, width: usize) -> (r: String)
    ensures
        r@ == zero_padded(n as int, width as nat),
{
    let mut out = String::new();
    let m = magnitude(n);
    let mut have: usize = digit_count(m);
    if n < 0 {
        proof {
            reveal_strlit("-");
        }
        out.append("-");
        have = have + 1;
    }
    let ghost sign = out@;
    let ghost start = have;
    proof {
        reveal_strlit("0");
    }
    while have < width
        invariant
            "0"@ == seq!['0'],
            start <= have,
            have == start || have <= width,
            out@ == sign + Seq::new((have - start) as nat, |i: int| '0'),
        decreases width - have,
    {
        out.append("0");
        have = have + 1;
        assert(out@ =~= sign + Seq::new((have - start) as nat, |i: int| '0'));
    }
    append_digits(&mut out, m);
    assert(out@ =~= zero_padded(n as int, width as nat));
    out
}

/// A number below a hundred, filled up to two digits.
pub proof fn lemma_two_digits(n: int)
    requires
        0 <= n < 100,
    ensures
        zero_padded(n, 2) == seq![digit_char(n / 10), digit_char(n % 10)],
{
    reveal_with_fuel(decimal_digits, 3);
    assert(zero_padded(n, 2) =~= seq![digit_char(n / 10), digit_char(n % 10)]);
}

/// A number below ten thousand, filled up to four digits.
pub proof fn lemma_four_digits(n: int)
    requires
        0 <= n < 10000,
    ensures
        zero_padded(n, 4) == seq![
            digit_char(n / 1000),
            digit_char(n / 100 % 10),
            digit_char(n / 10 % 10),
            digit_char(n % 10),
        ],
{
    reveal_with_fuel(decimal_digits, 5);
    assert(n / 10 / 10 == n / 100);
    assert(n / 100 / 10 == n / 1000);
    assert(zero_padded(n, 4) =~= seq![
        digit_char(n / 1000),
        digit_char(n / 100 % 10),
        digit_char(n / 10 % 10),
        digit_char(n % 10),
    ]);
}

/// Whether a text is the given one.
pub fn same_text(a: &String, b: &str) -> (r: bool)
    ensures
        r == (a@ == b@),
{
    *a == b.to_owned()
}

} // verus!
