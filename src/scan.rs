//! Reading tool output: lines, trimming, words, unsigned numbers and substrings.
//! Whitespace is Unicode's White_Space set.
use vstd::prelude::*;
use crate::types::texts;

verus! {

/// A whitespace character.
pub open spec fn is_ws(c: char) -> bool {
    let n = c as u32;
    (9 <= n <= 13) || n == 32 || n == 0x85 || n == 0xA0 || n == 0x1680 || (0x2000 <= n
        <= 0x200A) || n == 0x2028 || n == 0x2029 || n == 0x202F || n == 0x205F || n == 0x3000
}

/// Whether a character is whitespace.
pub fn is_whitespace(c: char) -> (r: bool)
    ensures
        r == is_ws(c),
{
    let n = c as u32;
    (9 <= n && n <= 13) || n == 32 || n == 0x85 || n == 0xA0 || n == 0x1680 || (0x2000 <= n && n
        <= 0x200A) || n == 0x2028 || n == 0x2029 || n == 0x202F || n == 0x205F || n == 0x3000
}

/// A line without the carriage return that ended it.
pub open spec fn strip_cr(line: Seq<char>) -> Seq<char> {
    if line.len() > 0 && line.last() == '\r' {
        line.drop_last()
    } else {
        line
    }
}

/// After the first `i` characters: the lines ended so far, and where the
/// current line began.
pub open spec fn line_scan(s: Seq<char>, i: nat) -> (Seq<Seq<char>>, nat)
    decreases i,
{
    if i == 0 {
        (seq![], 0)
    } else {
        let prev = line_scan(s, (i - 1) as nat);
        if s[i - 1] == '\n' {
            (prev.0.push(strip_cr(s.subrange(prev.1 as int, i - 1))), i)
        } else {
            prev
        }
    }
}

/// The lines of a text: split at `\n`, less a `\r` before it; the last line
/// needs no `\n`, and a final `\n` starts no empty line.
pub open spec fn lines(s: Seq<char>) -> Seq<Seq<char>> {
    let end = line_scan(s, s.len());
    if end.1 < s.len() {
        end.0.push(s.subrange(end.1 as int, s.len() as int))
    } else {
        end.0
    }
}

fn without_cr(line: &str) -> (r: &str)
    ensures
        r@ == strip_cr(line@),
{
    let n = line.unicode_len();
    if n > 0 && line.get_char(n - 1) == '\r' {
        line.substring_char(0, n - 1)
    } else {
        line
    }
}

/// Splits a text into its lines.
pub fn split_lines(s: &str) -> (r: Vec<String>)
    ensures
        texts(r@) == lines(s@),
{
    let n = s.unicode_len();
    let mut out: Vec<String> = Vec::new();
    let mut start: usize = 0;
    let mut i: usize = 0;
    while i < n
        invariant
            n == s@.len(),
            0 <= start <= i <= n,
            texts(out@) == line_scan(s@, i as nat).0,
            start == line_scan(s@, i as nat).1,
        decreases n - i,
    {
        let c = s.get_char(i);
        if c == '\n' {
            let line = without_cr(s.substring_char(start, i));
            let ghost before = out@;
            out.push(String::from_str(line));
            assert(texts(out@) =~= texts(before).push(line@));
            start = i + 1;
        }
        i = i + 1;
    }
    if start < n {
        let ghost before = out@;
        out.push(String::from_str(s.substring_char(start, n)));
        assert(texts(out@) =~= texts(before).push(s@.subrange(start as int, n as int)));
    }
    out
}

/// The first index from `i` on that is not whitespace, or the length.
pub open spec fn lead(s: Seq<char>, i: nat) -> nat
    decreases s.len() - i,
{
    if i < s.len() && is_ws(s[i as int]) {
        lead(s, i + 1)
    } else {
        i
    }
}

/// Going back from `j`, but not past `lo`: the end of the text before its
/// trailing whitespace.
pub open spec fn trail(s: Seq<char>, lo: nat, j: nat) -> nat
    decreases j,
{
    if j > lo && is_ws(s[j - 1]) {
        trail(s, lo, (j - 1) as nat)
    } else {
        j
    }
}

/// A text without leading and trailing whitespace.
pub open spec fn trim(s: Seq<char>) -> Seq<char> {
    let a = lead(s, 0);
    s.subrange(a as int, trail(s, a, s.len()) as int)
}

/// The index of the first character from `from` on that is not whitespace.
pub fn skip_whitespace(s: &str, from: usize) -> (r: usize)
    requires
        from <= s@.len(),
    ensures
        r == lead(s@, from as nat),
        from <= r <= s@.len(),
{
    let n = s.unicode_len();
    let mut a = from;
    while a < n && is_whitespace(s.get_char(a))
        invariant
            n == s@.len(),
            from <= a <= n,
            lead(s@, a as nat) == lead(s@, from as nat),
        decreases n - a,
    {
        a = a + 1;
    }
    a
}

/// Removes leading and trailing whitespace.
pub fn trim_text(s: &str) -> (r: String)
    ensures
        r@ == trim(s@),
{
    let n = s.unicode_len();
    let a = skip_whitespace(s, 0);
    let mut b = n;
    while b > a && is_whitespace(s.get_char(b - 1))
        invariant
            n == s@.len(),
            a <= b <= n,
            trail(s@, a as nat, b as nat) == trail(s@, a as nat, n as nat),
        decreases b,
    {
        b = b - 1;
    }
    String::from_str(s.substring_char(a, b))
}

/// The end of the word that begins at `i`: the first whitespace from `i` on,
/// or the length.
pub open spec fn word_end(s: Seq<char>, i: nat) -> nat
    decreases s.len() - i,
{
    if i < s.len() && !is_ws(s[i as int]) {
        word_end(s, i + 1)
    } else {
        i
    }
}

/// The second of the whitespace-separated words of a text, if it has two.
pub open spec fn second_word(s: Seq<char>) -> Option<Seq<char>> {
    let a = lead(s, 0);
    if a >= s.len() {
        None
    } else {
        let b = lead(s, word_end(s, a));
        if b >= s.len() {
            None
        } else {
            Some(s.subrange(b as int, word_end(s, b) as int))
        }
    }
}

fn find_word_end(s: &str, from: usize) -> (r: usize)
    requires
        from <= s@.len(),
    ensures
        r == word_end(s@, from as nat),
        from <= r <= s@.len(),
{
    let n = s.unicode_len();
    let mut e = from;
    while e < n && !is_whitespace(s.get_char(e))
        invariant
            n == s@.len(),
            from <= e <= n,
            word_end(s@, e as nat) == word_end(s@, from as nat),
        decreases n - e,
    {
        e = e + 1;
    }
    e
}

/// The second whitespace-separated word of a text.
pub fn second_word_of(s: &str) -> (r: Option<String>)
    ensures
        match second_word(s@) {
            Some(w) => (r matches Some(t) && t@ == w),
            None => r is None,
        },
{
    let n = s.unicode_len();
    let a = skip_whitespace(s, 0);
    if a >= n {
        return None;
    }
    let b = skip_whitespace(s, find_word_end(s, a));
    if b >= n {
        return None;
    }
    let e = find_word_end(s, b);
    Some(String::from_str(s.substring_char(b, e)))
}

/// The value of a decimal digit character.
pub open spec fn digit_value(c: char) -> nat {
    (c as u32 - '0' as u32) as nat
}

/// Every character is an ASCII digit.
pub open spec fn all_digits(d: Seq<char>) -> bool {
    forall|i: int| 0 <= i < d.len() ==> '0' <= #[trigger] d[i] <= '9'
}

/// The number that a sequence of digits writes.
pub open spec fn digits_value(d: Seq<char>) -> nat
    decreases d.len(),
{
    if d.len() == 0 {
        0
    } else {
        digits_value(d.drop_last()) * 10 + digit_value(d.last())
    }
}

/// An unsigned 32-bit number as Rust reads it: an optional `+`, then at least
/// one ASCII digit, with a value that fits.
pub open spec fn parse_u32(w: Seq<char>) -> Option<u32> {
    let d = if w.len() > 0 && w[0] == '+' {
        w.drop_first()
    } else {
        w
    };
    if d.len() > 0 && all_digits(d) && digits_value(d) <= u32::MAX {
        Some(digits_value(d) as u32)
    } else {
        None
    }
}

proof fn lemma_digits_grow(d: Seq<char>, k: int)
    requires
        0 <= k <= d.len(),
        all_digits(d),
    ensures
        digits_value(d.subrange(0, k)) <= digits_value(d),
    decreases d.len() - k,
{
    if k < d.len() {
        lemma_digits_grow(d, k + 1);
        assert(d.subrange(0, k + 1).drop_last() =~= d.subrange(0, k));
    } else {
        assert(d.subrange(0, k) =~= d);
    }
}

/// Reads an unsigned 32-bit number.
pub fn parse_u32_text(w: &str) -> (r: Option<u32>)
    ensures
        r == parse_u32(w@),
{
    let n = w.unicode_len();
    let start: usize = if n > 0 && w.get_char(0) == '+' {
        1
    } else {
        0
    };
    let ghost d = if w@.len() > 0 && w@[0] == '+' {
        w@.drop_first()
    } else {
        w@
    };
    assert(d =~= w@.subrange(start as int, n as int));
    if start >= n {
        return None;
    }
    let mut value: u64 = 0;
    let mut i: usize = start;
    while i < n
        invariant
            n == w@.len(),
            start <= i <= n,
            d == w@.subrange(start as int, n as int),
            d == (if w@.len() > 0 && w@[0] == '+' {
                w@.drop_first()
            } else {
                w@
            }),
            all_digits(d.subrange(0, i - start)),
            value == digits_value(d.subrange(0, i - start)),
            value <= u32::MAX,
        decreases n - i,
    {
        let c = w.get_char(i);
        let ghost k = i - start;
        if c < '0' || c > '9' {
            assert(d[k] == c);
            assert(!all_digits(d));
            return None;
        }
        assert(d.subrange(0, k + 1).drop_last() =~= d.subrange(0, k));
        assert(d.subrange(0, k + 1).last() == c);
        assert(all_digits(d.subrange(0, k + 1))) by {
            assert forall|j: int| 0 <= j < k + 1 implies '0' <= #[trigger] d.subrange(0, k + 1)[j]
                <= '9' by {
                if j < k {
                    assert(d.subrange(0, k + 1)[j] == d.subrange(0, k)[j]);
                }
            }
        }
        value = value * 10 + (c as u64 - '0' as u64);
        i = i + 1;
        if value > 0xffff_ffff {
            proof {
                if all_digits(d) {
                    lemma_digits_grow(d, k + 1);
                }
            }
            return None;
        }
    }
    assert(d.subrange(0, (n - start) as int) =~= d);
    Some(value as u32)
}

/// The characters of a text, one by one.
pub fn chars_of(s: &str) -> (r: Vec<char>)
    ensures
        r@ == s@,
{
    let n = s.unicode_len();
    let mut out: Vec<char> = Vec::new();
    let mut i: usize = 0;
    while i < n
        invariant
            n == s@.len(),
            0 <= i <= n,
            out@ == s@.subrange(0, i as int),
        decreases n - i,
    {
        out.push(s.get_char(i));
        assert(out@ =~= s@.subrange(0, i + 1));
        i = i + 1;
    }
    assert(out@ =~= s@);
    out
}

/// `p` occurs in `s`.
pub open spec fn contains(s: Seq<char>, p: Seq<char>) -> bool {
    exists|i: int| 0 <= i && i + p.len() <= s.len() && #[trigger] s.subrange(i, i + p.len()) == p
}

fn occurs_at(s: &Vec<char>, p: &Vec<char>, i: usize) -> (r: bool)
    requires
        i + p@.len() <= s@.len(),
    ensures
        r == (s@.subrange(i as int, i + p@.len()) == p@),
{
    let sl = s.len();
    let mut k: usize = 0;
    while k < p.len()
        invariant
            sl == s@.len(),
            i + p@.len() <= s@.len(),
            0 <= k <= p@.len(),
            s@.subrange(i as int, i + k) == p@.subrange(0, k as int),
        decreases p@.len() - k,
    {
        assert(i + k < s@.len());
        if s[i + k] != p[k] {
            assert(s@.subrange(i as int, i + p@.len())[k as int] != p@[k as int]);
            return false;
        }
        assert(s@.subrange(i as int, i + k + 1) =~= s@.subrange(i as int, i + k).push(
            s@[i + k],
        ));
        assert(p@.subrange(0, k + 1) =~= p@.subrange(0, k as int).push(p@[k as int]));
        k = k + 1;
    }
    assert(p@.subrange(0, p@.len() as int) =~= p@);
    true
}

/// Whether `p` occurs in `s`.
pub fn contains_text(s: &str, p: &str) -> (r: bool)
    ensures
        r == contains(s@, p@),
{
    let sc = chars_of(s);
    let pc = chars_of(p);
    if pc.len() == 0 {
        assert(s@.subrange(0, 0 + p@.len() as int) =~= p@);
        return true;
    }
    if pc.len() > sc.len() {
        return false;
    }
    let last = sc.len() - pc.len();
    let mut i: usize = 0;
    while i <= last
        invariant
            sc@ == s@,
            pc@ == p@,
            last == s@.len() - p@.len(),
            p@.len() >= 1,
            last < sc.len(),
            0 <= i <= last + 1,
            forall|j: int| 0 <= j < i ==> #[trigger] s@.subrange(j, j + p@.len()) != p@,
        decreases last + 1 - i,
    {
        if occurs_at(&sc, &pc, i) {
            return true;
        }
        i = i + 1;
    }
    false
}

} // verus!
