//! Path tracing: reading the hops out of what the tracing tool wrote.
//!
//! After a header line, each hop line reads: optional whitespace, the hop
//! number, whitespace, then either a dotted-quad address or `*`, and
//! whitespace. After an address, a round trip may follow, written as digits
//! with an optional fraction, optional whitespace and `ms`; a `*` hop gave no
//! answer and has no round trip. Other lines are skipped.
use vstd::prelude::*;
use crate::scan::{all_digits, digits_value, is_whitespace, lead, lines, parse_u32, split_lines};
use crate::types::{texts, RouteHop, RoutingResult};

verus! {

/// An ASCII digit.
pub open spec fn is_digit(c: char) -> bool {
    '0' <= c <= '9'
}

/// The end of the run of digits that starts at `i`.
pub open spec fn digits_end(s: Seq<char>, i: nat) -> nat
    decreases s.len() - i,
{
    if i < s.len() && is_digit(s[i as int]) {
        digits_end(s, i + 1)
    } else {
        i
    }
}

/// A run of at least one digit from `i`, then a dot: the index after the dot.
pub open spec fn digits_dot(s: Seq<char>, i: nat) -> Option<nat> {
    let e = digits_end(s, i);
    if e > i && e < s.len() && s[e as int] == '.' {
        Some(e + 1)
    } else {
        None
    }
}

/// A dotted quad of digit runs from `i`: the index after it.
pub open spec fn ipv4_end(s: Seq<char>, i: nat) -> Option<nat> {
    match digits_dot(s, i) {
        Some(a) => match digits_dot(s, a) {
            Some(b) => match digits_dot(s, b) {
                Some(c) => if digits_end(s, c) > c {
                    Some(digits_end(s, c))
                } else {
                    None
                },
                None => None,
            },
            None => None,
        },
        None => None,
    }
}

/// Where a hop line's fields lie.
pub struct HopSpans {
    pub number: (nat, nat),
    /// The address; `None` for a hop that gave no answer.
    pub address: Option<(nat, nat)>,
    pub rtt: Option<(nat, nat)>,
}

/// The round trip that may follow the address, from `d`: digits, an
/// optional dot and digits, optional whitespace, then `ms`.
pub open spec fn rtt_span(s: Seq<char>, d: nat) -> Option<(nat, nat)> {
    let f = digits_end(s, d);
    if f == d {
        None
    } else {
        let g = if f < s.len() && s[f as int] == '.' {
            digits_end(s, f + 1)
        } else {
            f
        };
        let h = lead(s, g);
        if h + 2 <= s.len() && s[h as int] == 'm' && s[h as int + 1] == 's' {
            Some((d, g))
        } else {
            None
        }
    }
}

/// The fields of a hop line, or `None` when the line is no hop line.
pub open spec fn hop_spans(s: Seq<char>) -> Option<HopSpans> {
    let a = lead(s, 0);
    let b = digits_end(s, a);
    let c = lead(s, b);
    if b == a || c == b {
        None
    } else {
        let quad = ipv4_end(s, c);
        if quad is Some && lead(s, quad->0) > quad->0 {
            let e = quad->0;
            Some(
                HopSpans {
                    number: (a, b),
                    address: Some((c, e)),
                    rtt: rtt_span(s, lead(s, e)),
                },
            )
        } else if c < s.len() && s[c as int] == '*' && lead(s, c + 1) > c + 1 {
            Some(HopSpans { number: (a, b), address: None, rtt: None })
        } else {
            None
        }
    }
}

/// The first three digits of a fraction as microseconds of a millisecond.
pub open spec fn fraction_us(f: Seq<char>) -> nat {
    (if f.len() > 0 {
        (f[0] as u32 - '0' as u32) as nat * 100
    } else {
        0nat
    }) + (if f.len() > 1 {
        (f[1] as u32 - '0' as u32) as nat * 10
    } else {
        0nat
    }) + (if f.len() > 2 {
        (f[2] as u32 - '0' as u32) as nat
    } else {
        0nat
    })
}

/// Milliseconds written as digits, then after one more character the digits
/// of a fraction, in whole microseconds (fraction digits past the third are
/// dropped), when that fits.
pub open spec fn ms_to_us(t: Seq<char>) -> Option<u64> {
    let e = digits_end(t, 0);
    let frac = if e < t.len() {
        t.subrange(e as int + 1, digits_end(t, e + 1) as int)
    } else {
        seq![]
    };
    let v = digits_value(t.subrange(0, e as int)) * 1000 + fraction_us(frac);
    if v <= u64::MAX {
        Some(v as u64)
    } else {
        None
    }
}

/// The text of a span.
pub open spec fn span_text(s: Seq<char>, sp: (nat, nat)) -> Seq<char> {
    s.subrange(sp.0 as int, sp.1 as int)
}

/// The hop number of a hop line: its digits read as a number, 0 if it does
/// not fit.
pub open spec fn hop_number_of(s: Seq<char>, h: HopSpans) -> u32 {
    match parse_u32(span_text(s, h.number)) {
        Some(n) => n,
        None => 0,
    }
}

/// The address of a hop line, `*` for a hop that gave no answer.
pub open spec fn address_of(s: Seq<char>, h: HopSpans) -> Seq<char> {
    match h.address {
        Some(sp) => span_text(s, sp),
        None => "*"@,
    }
}

/// The round trip of a hop line in microseconds, 0 when none is written or
/// it does not fit.
pub open spec fn rtt_of(s: Seq<char>, h: HopSpans) -> u64 {
    match h.rtt {
        Some(sp) => match ms_to_us(span_text(s, sp)) {
            Some(v) => v,
            None => 0,
        },
        None => 0,
    }
}

/// `hop` is what the hop line `s` describes: its number, its address, no
/// host name, its round trip, and a loss of 100 percent exactly when it gave
/// no answer.
pub open spec fn hop_matches(hop: RouteHop, s: Seq<char>) -> bool {
    &&& hop_spans(s) is Some
    &&& hop.hop_number == hop_number_of(s, hop_spans(s)->0)
    &&& hop.ip_address@ == address_of(s, hop_spans(s)->0)
    &&& hop.hostname is None
    &&& hop.rtt_us == rtt_of(s, hop_spans(s)->0)
    &&& hop.packet_loss_percent == (if hop_spans(s)->0.address is Some {
        0u32
    } else {
        100u32
    })
}

/// The hop lines among `ls`.
pub open spec fn hop_lines(ls: Seq<Seq<char>>) -> Seq<Seq<char>>
    decreases ls.len(),
{
    if ls.len() == 0 {
        seq![]
    } else if hop_spans(ls.last()) is Some {
        hop_lines(ls.drop_last()).push(ls.last())
    } else {
        hop_lines(ls.drop_last())
    }
}

/// The lines after the header.
pub open spec fn body_lines(output: Seq<char>) -> Seq<Seq<char>> {
    let ls = lines(output);
    if ls.len() == 0 {
        ls
    } else {
        ls.drop_first()
    }
}

fn digits_end_at(v: &Vec<char>, i: usize) -> (r: usize)
    requires
        i <= v@.len(),
    ensures
        r == digits_end(v@, i as nat),
        i <= r <= v@.len(),
{
    let mut e = i;
    while e < v.len() && v[e] >= '0' && v[e] <= '9'
        invariant
            i <= e <= v@.len(),
            digits_end(v@, e as nat) == digits_end(v@, i as nat),
        decreases v@.len() - e,
    {
        e = e + 1;
    }
    e
}

fn lead_at(v: &Vec<char>, i: usize) -> (r: usize)
    requires
        i <= v@.len(),
    ensures
        r == lead(v@, i as nat),
        i <= r <= v@.len(),
{
    let mut e = i;
    while e < v.len() && is_whitespace(v[e])
        invariant
            i <= e <= v@.len(),
            lead(v@, e as nat) == lead(v@, i as nat),
        decreases v@.len() - e,
    {
        e = e + 1;
    }
    e
}

fn digits_dot_at(v: &Vec<char>, i: usize) -> (r: Option<usize>)
    requires
        i <= v@.len(),
    ensures
        match r {
            Some(a) => digits_dot(v@, i as nat) == Some(a as nat) && a <= v@.len(),
            None => digits_dot(v@, i as nat) is None,
        },
{
    let e = digits_end_at(v, i);
    if e > i && e < v.len() && v[e] == '.' {
        Some(e + 1)
    } else {
        None
    }
}

fn ipv4_end_at(v: &Vec<char>, i: usize) -> (r: Option<usize>)
    requires
        i <= v@.len(),
    ensures
        match r {
            Some(e) => ipv4_end(v@, i as nat) == Some(e as nat) && e <= v@.len(),
            None => ipv4_end(v@, i as nat) is None,
        },
{
    let a = match digits_dot_at(v, i) {
        Some(a) => a,
        None => {
            return None;
        },
    };
    let b = match digits_dot_at(v, a) {
        Some(b) => b,
        None => {
            return None;
        },
    };
    let c = match digits_dot_at(v, b) {
        Some(c) => c,
        None => {
            return None;
        },
    };
    let e = digits_end_at(v, c);
    if e > c {
        Some(e)
    } else {
        None
    }
}

fn rtt_span_at(v: &Vec<char>, d: usize) -> (r: Option<(usize, usize)>)
    requires
        d <= v@.len(),
    ensures
        match r {
            Some(sp) => rtt_span(v@, d as nat) == Some((sp.0 as nat, sp.1 as nat)) && sp.0 <= sp.1
                <= v@.len(),
            None => rtt_span(v@, d as nat) is None,
        },
{
    let f = digits_end_at(v, d);
    if f == d {
        return None;
    }
    let g = if f < v.len() && v[f] == '.' {
        digits_end_at(v, f + 1)
    } else {
        f
    };
    let h = lead_at(v, g);
    if h < v.len() && v[h] == 'm' && h + 1 < v.len() && v[h + 1] == 's' {
        Some((d, g))
    } else {
        None
    }
}

proof fn lemma_digit_run(s: Seq<char>, i: nat)
    requires
        i <= s.len(),
    ensures
        all_digits(s.subrange(i as int, digits_end(s, i) as int)),
        i <= digits_end(s, i) <= s.len(),
    decreases s.len() - i,
{
    if i < s.len() && is_digit(s[i as int]) {
        lemma_digit_run(s, i + 1);
        let e = digits_end(s, i);
        assert(e == digits_end(s, i + 1));
        let whole = s.subrange(i as int, e as int);
        let rest = s.subrange(i as int + 1, e as int);
        assert forall|k: int| 0 <= k < whole.len() implies '0' <= #[trigger] whole[k] <= '9' by {
            if k == 0 {
                assert(whole[0] == s[i as int]);
            } else {
                assert(whole[k] == rest[k - 1]);
            }
        }
    } else {
        assert(s.subrange(i as int, i as int).len() == 0);
    }
}

proof fn lemma_digits_grow(d: Seq<char>, k: int)
    requires
        0 <= k <= d.len(),
        all_digits(d),
    ensures
        digits_value(d.subrange(0, k)) <= digits_value(d),
    decreases d.len() - k,
{
    if k < d.len() {
        lemma_digits_grow(d, k + 1);
        assert(d.subrange(0, k + 1).drop_last() =~= d.subrange(0, k));
        assert(all_digits(d.subrange(0, k + 1)));
    } else {
        assert(d.subrange(0, k) =~= d);
    }
}

/// Reads milliseconds written as digits with an optional fraction into whole
/// microseconds.
pub fn ms_text_to_us(t: &Vec<char>) -> (r: Option<u64>)
    ensures
        r == ms_to_us(t@),
{
    let e = digits_end_at(t, 0);
    let ghost whole = t@.subrange(0, e as int);
    proof {
        lemma_digit_run(t@, 0);
    }
    let mut value: u128 = 0;
    let mut i: usize = 0;
    while i < e
        invariant
            e == digits_end(t@, 0),
            e <= t@.len(),
            whole == t@.subrange(0, e as int),
            all_digits(whole),
            0 <= i <= e,
            value == digits_value(whole.subrange(0, i as int)),
            value <= u64::MAX,
        decreases e - i,
    {
        let c = t[i];
        assert(whole.subrange(0, i + 1).drop_last() =~= whole.subrange(0, i as int));
        assert(whole[i as int] == c);
        value = value * 10 + (c as u128 - '0' as u128);
        i = i + 1;
        if value > 0xffff_ffff_ffff_ffff {
            proof {
                lemma_digits_grow(whole, i as int);
                assert(digits_value(whole) * 1000 > u64::MAX) by (nonlinear_arith)
                    requires
                        digits_value(whole) > u64::MAX,
                ;
            }
            return None;
        }
    }
    assert(whole.subrange(0, e as int) =~= whole);
    let mut f: u128 = 0;
    if e < t.len() {
        let e2 = digits_end_at(t, e + 1);
        let ghost frac = t@.subrange(e + 1, e2 as int);
        proof {
            lemma_digit_run(t@, (e + 1) as nat);
        }
        if e + 1 < e2 {
            assert(frac[0] == t@[e + 1]);
            f = f + (t[e + 1] as u32 - '0' as u32) as u128 * 100;
            if e + 2 < e2 {
                assert(frac[1] == t@[e + 2]);
                f = f + (t[e + 2] as u32 - '0' as u32) as u128 * 10;
                if e + 3 < e2 {
                    assert(frac[2] == t@[e + 3]);
                    f = f + (t[e + 3] as u32 - '0' as u32) as u128;
                }
            }
        }
        assert(f == fraction_us(frac));
    } else {
        assert(f == fraction_us(seq![]));
    }
    let total: u128 = value * 1000 + f;
    if total <= 0xffff_ffff_ffff_ffff {
        Some(total as u64)
    } else {
        None
    }
}

fn hop_spans_at(v: &Vec<char>) -> (r: Option<(usize, usize, Option<(usize, usize)>, Option<(usize, usize)>)>)
    ensures
        match r {
            Some(x) => hop_spans(v@) is Some && {
                let h = hop_spans(v@)->0;
                &&& x.0 as nat == h.number.0 && x.1 as nat == h.number.1
                &&& x.0 <= x.1 <= v@.len()
                &&& match x.2 {
                    Some(sp) => h.address == Some((sp.0 as nat, sp.1 as nat)) && sp.0 <= sp.1
                        <= v@.len(),
                    None => h.address is None,
                }
                &&& match x.3 {
                    Some(sp) => h.rtt == Some((sp.0 as nat, sp.1 as nat)) && sp.0 <= sp.1
                        <= v@.len(),
                    None => h.rtt is None,
                }
            },
            None => hop_spans(v@) is None,
        },
{
    let a = lead_at(v, 0);
    let b = digits_end_at(v, a);
    let c = lead_at(v, b);
    if b == a || c == b {
        return None;
    }
    let quad = ipv4_end_at(v, c);
    if let Some(e) = quad {
        let d = lead_at(v, e);
        if d > e {
            return Some((a, b, Some((c, e)), rtt_span_at(v, d)));
        }
    }
    if c < v.len() && v[c] == '*' {
        let d = lead_at(v, c + 1);
        if d > c + 1 {
            return Some((a, b, None, None));
        }
    }
    None
}

/// The hop that a line describes, or `None` when it is no hop line.
pub fn parse_hop_line(line: &str) -> (r: Option<RouteHop>)
    ensures
        match hop_spans(line@) {
            Some(h) => (r matches Some(hop) && hop_matches(hop, line@)),
            None => r is None,
        },
{
    let v = crate::scan::chars_of(line);
    let spans = match hop_spans_at(&v) {
        Some(x) => x,
        None => {
            return None;
        },
    };
    let ghost h = hop_spans(line@)->0;
    let number_text = line.substring_char(spans.0, spans.1);
    let hop_number = match crate::scan::parse_u32_text(number_text) {
        Some(n) => n,
        None => 0,
    };
    let (ip_address, packet_loss_percent) = match spans.2 {
        Some((from, to)) => (String::from_str(line.substring_char(from, to)), 0u32),
        None => (String::from_str("*"), 100u32),
    };
    let rtt_us = match spans.3 {
        Some((from, to)) => {
            let mut t: Vec<char> = Vec::new();
            let mut i = from;
            while i < to
                invariant
                    v@ == line@,
                    from <= i <= to <= v@.len(),
                    t@ == v@.subrange(from as int, i as int),
                decreases to - i,
            {
                t.push(v[i]);
                assert(t@ =~= v@.subrange(from as int, i + 1));
                i = i + 1;
            }
            match ms_text_to_us(&t) {
                Some(us) => us,
                None => 0,
            }
        },
        None => 0,
    };
    Some(RouteHop { hop_number, ip_address, hostname: None, rtt_us, packet_loss_percent })
}

/// The path to `target_ip`, from what the tracing tool wrote and the time it
/// took: one hop for each hop line after the header, in order. The hop count
/// is the number of hops, or the largest `u32` if there are more.
pub fn routing_from_output(target_ip: &str, output: &str, total_time_us: u64) -> (r: RoutingResult)
    ensures
        r.target_ip@ == target_ip@,
        r.hops@.len() == hop_lines(body_lines(output@)).len(),
        forall|i: int|
            0 <= i < r.hops@.len() ==> hop_matches(
                #[trigger] r.hops@[i],
                hop_lines(body_lines(output@))[i],
            ),
        r.total_hops == (if r.hops@.len() <= u32::MAX {
            r.hops@.len() as u32
        } else {
            u32::MAX
        }),
        r.total_time_us == total_time_us,
{
    let ls = split_lines(output);
    let ghost body = body_lines(output@);
    let mut hops: Vec<RouteHop> = Vec::new();
    let mut i: usize = 1;
    if ls.len() == 0 {
        assert(body =~= Seq::<Seq<char>>::empty());
        i = 0;
    }
    while i < ls.len()
        invariant
            texts(ls@) == lines(output@),
            body == body_lines(output@),
            ls@.len() == 0 ==> i == 0,
            ls@.len() > 0 ==> 1 <= i <= ls@.len(),
            ls@.len() > 0 ==> body =~= texts(ls@).drop_first(),
            hops@.len() == hop_lines(body.subrange(0, if ls@.len() > 0 { i - 1 } else { 0 })).len(),
            forall|k: int|
                0 <= k < hops@.len() ==> hop_matches(
                    #[trigger] hops@[k],
                    hop_lines(body.subrange(0, if ls@.len() > 0 { i - 1 } else { 0 }))[k],
                ),
        decreases ls@.len() - i,
    {
        let line = &ls[i];
        let ghost done = body.subrange(0, i - 1);
        let ghost next = body.subrange(0, i as int);
        assert(next.drop_last() =~= done);
        assert(next.last() == line@);
        match parse_hop_line(line.as_str()) {
            Some(hop) => {
                hops.push(hop);
                assert(hop_lines(next) =~= hop_lines(done).push(line@));
            },
            None => {
                assert(hop_lines(next) =~= hop_lines(done));
            },
        }
        i = i + 1;
    }
    if ls.len() > 0 {
        assert(body.subrange(0, ls@.len() - 1) =~= body);
    } else {
        assert(body.subrange(0, 0) =~= body);
    }
    let total_hops: u32 = if hops.len() <= 0xffff_ffff {
        hops.len() as u32
    } else {
        0xffff_ffff
    };
    RoutingResult {
        target_ip: String::from_str(target_ip),
        hops,
        total_hops,
        total_time_us,
    }
}

} // verus!
