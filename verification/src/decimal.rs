//! Decimal text for unsigned amounts: what a digit string denotes, how it is
//! read into a `u128`, and how a `u128` is written back.

use vstd::prelude::*;
use vstd::string::*;

verus! {

/// `c` is one of the ten ASCII digits.
pub open spec fn is_digit(c: char) -> bool {
    '0' <= c <= '9'
}

/// The number a digit stands for.
pub open spec fn digit_value(c: char) -> nat {
    (c as nat - '0' as nat) as nat
}

/// The digit that stands for `d`, for `d < 10`.
pub open spec fn digit_char(d: nat) -> char {
    (d + 48) as u8 as char
}

/// Every character of `s` is a digit.
pub open spec fn all_digits(s: Seq<char>) -> bool {
    forall|i: int| 0 <= i < s.len() ==> is_digit(#[trigger] s[i])
}

/// The number that a string of digits denotes in base ten, the empty string
/// denoting zero.
pub open spec fn digits_value(s: Seq<char>) -> nat
    decreases s.len(),
{
    if s.len() == 0 {
        0
    } else {
        10 * digits_value(s.drop_last()) + digit_value(s.last())
    }
}

/// The text without one leading `+`, if it has one.
pub open spec fn unsigned_part(s: Seq<char>) -> Seq<char> {
    if s.len() > 0 && s[0] == '+' {
        s.drop_first()
    } else {
        s
    }
}

/// `s` is an optional `+` followed by at least one digit and nothing else.
pub open spec fn is_decimal(s: Seq<char>) -> bool {
    unsigned_part(s).len() > 0 && all_digits(unsigned_part(s))
}

/// The amount that `s` denotes: `Some` exactly when `s` is decimal text whose
/// value fits in 128 bits.
pub open spec fn parse_u128(s: Seq<char>) -> Option<u128> {
    if is_decimal(s) && digits_value(unsigned_part(s)) <= u128::MAX {
        Some(digits_value(unsigned_part(s)) as u128)
    } else {
        None
    }
}

/// The shortest digit string that denotes `n`.
pub open spec fn decimal_digits(n: nat) -> Seq<char>
    decreases n,
{
    if n < 10 {
        seq![digit_char(n)]
    } else {
        decimal_digits(n / 10).push(digit_char(n % 10))
    }
}

/// A prefix of a digit string never denotes more than the whole string.
pub proof fn lemma_prefix_value_le(s: Seq<char>, k: int)
    requires
        0 <= k <= s.len(),
    ensures
        digits_value(s.take(k)) <= digits_value(s),
    decreases s.len(),
{
    if k == s.len() {
        assert(s.take(k) =~= s);
    } else {
        lemma_prefix_value_le(s.drop_last(), k);
        assert(s.drop_last().take(k) =~= s.take(k));
    }
}

/// Appending one digit multiplies the value by ten and adds the digit.
pub proof fn lemma_value_push(s: Seq<char>, c: char)
    ensures
        digits_value(s.push(c)) == 10 * digits_value(s) + digit_value(c),
{
    assert(s.push(c).drop_last() =~= s);
}

/// Writing a number and reading it back gives the number: the digits of `n`
/// are digits, denote `n`, and begin with `0` only for `n == 0`.
pub proof fn lemma_decimal_digits(n: nat)
    ensures
        decimal_digits(n).len() > 0,
        all_digits(decimal_digits(n)),
        digits_value(decimal_digits(n)) == n,
        decimal_digits(n)[0] == '0' <==> n == 0,
        n > 0 ==> decimal_digits(n).len() > 1 || decimal_digits(n)[0] != '0',
    decreases n,
{
    if n < 10 {
        let s = seq![digit_char(n)];
        assert(s.drop_last() =~= Seq::<char>::empty());
        assert(digits_value(s.drop_last()) == 0);
        assert(digit_value(digit_char(n)) == n);
    } else {
        lemma_decimal_digits(n / 10);
        let p = decimal_digits(n / 10);
        lemma_value_push(p, digit_char(n % 10));
        assert(digit_value(digit_char(n % 10)) == n % 10);
        assert(is_digit(digit_char(n % 10)));
        assert(decimal_digits(n)[0] == p[0]);
    }
}

/// Reading back what was written: the digits of an amount parse to that amount.
pub proof fn lemma_parse_decimal_digits(n: u128)
    ensures
        parse_u128(decimal_digits(n as nat)) == Some(n),
{
    lemma_decimal_digits(n as nat);
    let s = decimal_digits(n as nat);
    assert(s[0] != '+');
    assert(unsigned_part(s) == s);
}

/// Reads an amount from decimal text: an optional `+`, then digits only.
/// Gives `None` for any other text and for a value beyond 128 bits.
pub fn parse_amount(s: &str) -> (r: Option<u128>)
    ensures
        r == parse_u128(s@),
{
    broadcast use is_ascii_spec_bytes;

    let ghost d = unsigned_part(s@);
    if !s.is_ascii() {
        proof {
            let i = choose|i: int| 0 <= i < s@.len() && !('\0' <= #[trigger] s@[i] <= '\u{7f}');
            if s@[0] == '+' {
                assert(i > 0);
                assert(d[i - 1] == s@[i]);
                assert(!is_digit(d[i - 1]));
            } else {
                assert(!is_digit(d[i]));
            }
        }
        return None;
    }
    let bytes = s.as_bytes();
    let n = bytes.len();
    assert(n == s@.len());
    assert(forall|j: int| 0 <= j < n ==> bytes@[j] == s@[j] as u8);
    let start: usize = if n > 0 && bytes[0] == 43u8 { 1 } else { 0 };
    assert(d =~= s@.subrange(start as int, n as int));
    if start == n {
        return None;
    }
    let mut acc: u128 = 0;
    let mut i: usize = start;
    assert(d.take(0) =~= Seq::<char>::empty());
    while i < n
        invariant
            start <= i <= n,
            n == s@.len(),
            n == bytes@.len(),
            start < n,
            is_ascii(s),
            forall|j: int| 0 <= j < n ==> bytes@[j] == s@[j] as u8,
            d == unsigned_part(s@),
            d.len() == n - start,
            forall|j: int| 0 <= j < d.len() ==> d[j] == s@[start + j],
            all_digits(d.take(i - start)),
            acc == digits_value(d.take(i - start)),
        decreases n - i,
    {
        let b = bytes[i];
        let ghost c = s@[i as int];
        assert(c == d[i - start]);
        assert(bytes@[i as int] == c as u8);
        assert('\0' <= c <= '\u{7f}');
        if b < 48u8 || b > 57u8 {
            assert(!is_digit(d[i - start]));
            return None;
        }
        assert(is_digit(c));
        let digit: u128 = (b - 48u8) as u128;
        assert(digit == digit_value(c));
        proof {
            assert(d.take(i + 1 - start) =~= d.take(i - start).push(c));
            lemma_value_push(d.take(i - start), c);
            lemma_prefix_value_le(d, i + 1 - start);
        }
        let tens = match acc.checked_mul(10) {
            Some(t) => t,
            None => {
                return None;
            },
        };
        acc = match tens.checked_add(digit) {
            Some(t) => t,
            None => {
                return None;
            },
        };
        i = i + 1;
    }
    assert(d.take(i - start) =~= d);
    Some(acc)
}

/// The one-character text of the digit `d`.
fn digit_text(d: u8) -> (t: &'static str)
    requires
        d < 10,
    ensures
        t@ == seq![digit_char(d as nat)],
{
    proof {
        reveal_strlit("0");
        reveal_strlit("1");
        reveal_strlit("2");
        reveal_strlit("3");
        reveal_strlit("4");
        reveal_strlit("5");
        reveal_strlit("6");
        reveal_strlit("7");
        reveal_strlit("8");
        reveal_strlit("9");
    }
    let t = match d {
        0 => "0",
        1 => "1",
        2 => "2",
        3 => "3",
        4 => "4",
        5 => "5",
        6 => "6",
        7 => "7",
        8 => "8",
        _ => "9",
    };
    assert(t@ =~= seq![digit_char(d as nat)]);
    t
}

/// Writes an amount as the shortest decimal text that denotes it.
pub fn format_amount(n: u128) -> (r: String)
    ensures
        r@ == decimal_digits(n as nat),
{
    let mut low_first: Vec<u8> = Vec::new();
    let ghost mut tail: Seq<char> = Seq::empty();
    let mut m: u128 = n;
    loop
        invariant_except_break
            decimal_digits(n as nat) == decimal_digits(m as nat) + tail,
        invariant
            low_first@.len() == tail.len(),
            forall|j: int|
                0 <= j < tail.len() ==> low_first@[j] < 10 && tail[tail.len() - 1 - j]
                    == digit_char(#[trigger] low_first@[j] as nat),
        ensures
            decimal_digits(n as nat) == tail,
        decreases m,
    {
        let d: u8 = (m % 10) as u8;
        let ghost before = tail;
        let ghost c = digit_char(d as nat);
        low_first.push(d);
        proof {
            tail = seq![c] + before;
            if m < 10 {
                assert(decimal_digits(m as nat) + before =~= tail);
            } else {
                assert(decimal_digits((m / 10) as nat).push(c) + before =~= decimal_digits(
                    (m / 10) as nat,
                ) + tail);
            }
        }
        if m < 10 {
            break;
        }
        m = m / 10;
    }
    let mut out = String::new();
    let mut k: usize = low_first.len();
    while k > 0
        invariant
            k <= low_first@.len(),
            low_first@.len() == tail.len(),
            forall|j: int|
                0 <= j < tail.len() ==> low_first@[j] < 10 && tail[tail.len() - 1 - j]
                    == digit_char(#[trigger] low_first@[j] as nat),
            out@ == tail.take(tail.len() - k),
        decreases k,
    {
        k = k - 1;
        let t = digit_text(low_first[k]);
        out.append(t);
        assert(out@ =~= tail.take(tail.len() - k)) by {
            assert(tail[tail.len() - 1 - k] == digit_char(low_first@[k as int] as nat));
        }
    }
    assert(tail.take(tail.len() as int) =~= tail);
    out
}

} // verus!
