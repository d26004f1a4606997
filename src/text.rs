//! Building texts: decimal numbers, rounded milliseconds and lists of strings.
use vstd::prelude::*;
use crate::types::texts;

verus! {

/// The character of a decimal digit.
pub open spec fn digit_char(d: nat) -> char {
    if d == 0 {
        '0'
    } else if d == 1 {
        '1'
    } else if d == 2 {
        '2'
    } else if d == 3 {
        '3'
    } else if d == 4 {
        '4'
    } else if d == 5 {
        '5'
    } else if d == 6 {
        '6'
    } else if d == 7 {
        '7'
    } else if d == 8 {
        '8'
    } else {
        '9'
    }
}

/// The decimal notation of `n`, without leading zeros.
pub open spec fn decimal(n: nat) -> Seq<char>
    decreases n,
{
    if n < 10 {
        seq![digit_char(n)]
    } else {
        decimal(n / 10) + seq![digit_char(n % 10)]
    }
}

/// The decimal notation of `i`, with a minus sign when it is negative.
pub open spec fn signed_decimal(i: int) -> Seq<char> {
    if i < 0 {
        seq!['-'] + decimal((-i) as nat)
    } else {
        decimal(i as nat)
    }
}

/// Microseconds rounded to whole milliseconds, halves away from zero.
pub open spec fn rounded_ms(us: int) -> int {
    if us >= 0 {
        (us + 500) / 1000
    } else {
        -((-us + 500) / 1000)
    }
}

/// The percentage `part / whole`, rounded to a whole number, halves up.
pub open spec fn rounded_percent(part: nat, whole: nat) -> nat
    recommends
        whole > 0,
{
    ((200 * part + whole) / (2 * whole)) as nat
}

fn digit_text(d: u64) -> (r: &'static str)
    requires
        d < 10,
    ensures
        r@ == seq![digit_char(d as nat)],
{
    proof {
        reveal_strlit("0");
        reveal_strlit("1");
        reveal_strlit("2");
        reveal_strlit("3");
        reveal_strlit("4");
        reveal_strlit("5");
        reveal_strlit("6");
        reveal_strlit("7");
        reveal_strlit("8");
        reveal_strlit("9");
    }
    if d == 0 {
        "0"
    } else if d == 1 {
        "1"
    } else if d == 2 {
        "2"
    } else if d == 3 {
        "3"
    } else if d == 4 {
        "4"
    } else if d == 5 {
        "5"
    } else if d == 6 {
        "6"
    } else if d == 7 {
        "7"
    } else if d == 8 {
        "8"
    } else {
        "9"
    }
}

/// Appends the decimal notation of `n`.
pub fn append_decimal(s: &mut String, n: u64)
    ensures
        final(s)@ == old(s)@ + decimal(n as nat),
    decreases n,
{
    let ghost start = s@;
    if n >= 10 {
        append_decimal(s, n / 10);
    }
    s.append(digit_text(n % 10));
    proof {
        if n >= 10 {
            assert(s@ =~= start + (decimal((n / 10) as nat) + seq![digit_char((n % 10) as nat)]));
        } else {
            assert(s@ =~= start + decimal(n as nat));
        }
    }
}

/// Appends the decimal notation of `v`, with a minus sign when it is negative.
pub fn append_signed(s: &mut String, v: i64)
    ensures
        final(s)@ == old(s)@ + signed_decimal(v as int),
{
    if v < 0 {
        let ghost start = s@;
        proof {
            reveal_strlit("-");
        }
        s.append("-");
        let magnitude: u64 = (0i128 - v as i128) as u64;
        append_decimal(s, magnitude);
        assert(s@ =~= start + signed_decimal(v as int));
    } else {
        append_decimal(s, v as u64);
    }
}

/// Microseconds rounded to whole milliseconds, halves up.
pub fn whole_ms(us: u64) -> (r: u64)
    ensures
        r as int == rounded_ms(us as int),
{
    ((us as u128 + 500) / 1000) as u64
}

/// The percentage `part / whole`, rounded to a whole number, halves up.
pub fn percent_of(part: u64, whole: u64) -> (r: u64)
    requires
        whole > 0,
        part <= whole,
    ensures
        r as nat == rounded_percent(part as nat, whole as nat),
        r <= 100,
{
    let p: u128 = part as u128;
    let w: u128 = whole as u128;
    let r = (200 * p + w) / (2 * w);
    assert(r <= 100) by (nonlinear_arith)
        requires
            r == (200 * p + w) / (2 * w),
            p <= w,
            w > 0,
    {
        assert(200 * p + w < 202 * w);
    }
    r as u64
}

/// A list of one text.
pub fn text_list1(a: &str) -> (r: Vec<String>)
    ensures
        texts(r@) == seq![a@],
{
    let mut v: Vec<String> = Vec::new();
    v.push(String::from_str(a));
    assert(texts(v@) =~= seq![a@]);
    v
}

/// A list of two texts.
pub fn text_list2(a: &str, b: &str) -> (r: Vec<String>)
    ensures
        texts(r@) == seq![a@, b@],
{
    let mut v: Vec<String> = Vec::new();
    v.push(String::from_str(a));
    v.push(String::from_str(b));
    assert(texts(v@) =~= seq![a@, b@]);
    v
}

/// A list of three texts.
pub fn text_list3(a: &str, b: &str, c: &str) -> (r: Vec<String>)
    ensures
        texts(r@) == seq![a@, b@, c@],
{
    let mut v: Vec<String> = Vec::new();
    v.push(String::from_str(a));
    v.push(String::from_str(b));
    v.push(String::from_str(c));
    assert(texts(v@) =~= seq![a@, b@, c@]);
    v
}

/// A list of four texts.
pub fn text_list4(a: &str, b: &str, c: &str, d: &str) -> (r: Vec<String>)
    ensures
        texts(r@) == seq![a@, b@, c@, d@],
{
    let mut v: Vec<String> = Vec::new();
    v.push(String::from_str(a));
    v.push(String::from_str(b));
    v.push(String::from_str(c));
    v.push(String::from_str(d));
    assert(texts(v@) =~= seq![a@, b@, c@, d@]);
    v
}

} // verus!
