//! Name resolution: reading what the lookup tool wrote, and recognising a
//! content-delivery network from the name servers.
use vstd::prelude::*;
use crate::scan::{
    contains, contains_text, lines, parse_u32, parse_u32_text, second_word, second_word_of,
    split_lines, trim, trim_text,
};
use crate::target::opt_text;
use crate::types::{texts, DnsResult};

verus! {

/// What `str::to_lowercase` makes of a text.
pub uninterp spec fn lower_of(s: Seq<char>) -> Seq<char>;

/// Relies on `str::to_lowercase`: the result depends on the characters alone.
#[verifier::external_body]
pub(crate) fn lowercase(s: &str) -> (r: String)
    ensures
        r@ == lower_of(s@),
{
    s.to_lowercase()
}

/// The texts joined with one space between each two.
pub open spec fn joined(parts: Seq<Seq<char>>) -> Seq<char>
    decreases parts.len(),
{
    if parts.len() == 0 {
        seq![]
    } else if parts.len() == 1 {
        parts[0]
    } else {
        joined(parts.drop_last()) + seq![' '] + parts.last()
    }
}

/// Joins texts with one space between each two.
pub fn join_with_spaces(parts: &[String]) -> (r: String)
    ensures
        r@ == joined(texts(parts@)),
{
    let mut out = String::new();
    let mut i: usize = 0;
    while i < parts.len()
        invariant
            0 <= i <= parts@.len(),
            out@ == joined(texts(parts@.subrange(0, i as int))),
        decreases parts@.len() - i,
    {
        let ghost before = out@;
        assert(texts(parts@.subrange(0, i + 1)).drop_last() =~= texts(parts@.subrange(0, i as int)));
        if i > 0 {
            proof {
                reveal_strlit(" ");
            }
            out.append(" ");
        }
        out.append(parts[i].as_str());
        assert(texts(parts@.subrange(0, i + 1)).last() == parts@[i as int]@);
        if i == 0 {
            assert(out@ =~= joined(texts(parts@.subrange(0, 1))));
        } else {
            assert(out@ =~= before + seq![' '] + parts@[i as int]@);
        }
        i = i + 1;
    }
    assert(parts@.subrange(0, parts@.len() as int) =~= parts@);
    out
}

/// The network that lowercase name-server text points to, if any, tried in
/// this order.
pub open spec fn cdn_label(lowered: Seq<char>) -> Option<Seq<char>> {
    if contains(lowered, "cloudflare"@) {
        Some("Cloudflare"@)
    } else if contains(lowered, "awsdns"@) {
        Some("AWS Route53"@)
    } else if contains(lowered, "akamai"@) {
        Some("Akamai"@)
    } else if contains(lowered, "fastly"@) {
        Some("Fastly"@)
    } else if contains(lowered, "azure"@) {
        Some("Azure"@)
    } else if contains(lowered, "google"@) {
        Some("Google Cloud"@)
    } else {
        None
    }
}

/// The network that lowercase name-server text points to.
pub fn cdn_from_lowercase(lowered: &str) -> (r: Option<String>)
    ensures
        opt_text(r) == cdn_label(lowered@),
{
    if contains_text(lowered, "cloudflare") {
        Some(String::from_str("Cloudflare"))
    } else if contains_text(lowered, "awsdns") {
        Some(String::from_str("AWS Route53"))
    } else if contains_text(lowered, "akamai") {
        Some(String::from_str("Akamai"))
    } else if contains_text(lowered, "fastly") {
        Some(String::from_str("Fastly"))
    } else if contains_text(lowered, "azure") {
        Some(String::from_str("Azure"))
    } else if contains_text(lowered, "google") {
        Some(String::from_str("Google Cloud"))
    } else {
        None
    }
}

/// The content-delivery network that the name servers belong to, found in
/// their names joined by spaces and lowercased.
pub fn detect_cdn(nameservers: &[String]) -> (r: Option<String>)
    ensures
        opt_text(r) == cdn_label(lower_of(joined(texts(nameservers@)))),
{
    let all = join_with_spaces(nameservers);
    let lowered = lowercase(all.as_str());
    cdn_from_lowercase(lowered.as_str())
}

/// A line that holds a record: not empty and not a `;` comment.
pub open spec fn is_record(line: Seq<char>) -> bool {
    line.len() > 0 && line[0] != ';'
}

/// The trimmed record lines.
pub open spec fn record_texts(ls: Seq<Seq<char>>) -> Seq<Seq<char>>
    decreases ls.len(),
{
    if ls.len() == 0 {
        seq![]
    } else if is_record(ls.last()) {
        record_texts(ls.drop_last()).push(trim(ls.last()))
    } else {
        record_texts(ls.drop_last())
    }
}

/// The trimmed lines that are not empty.
pub open spec fn nonempty_texts(ls: Seq<Seq<char>>) -> Seq<Seq<char>>
    decreases ls.len(),
{
    if ls.len() == 0 {
        seq![]
    } else if ls.last().len() > 0 {
        nonempty_texts(ls.drop_last()).push(trim(ls.last()))
    } else {
        nonempty_texts(ls.drop_last())
    }
}

/// The first record line, if any.
pub open spec fn first_record(ls: Seq<Seq<char>>) -> Option<Seq<char>>
    decreases ls.len(),
{
    if ls.len() == 0 {
        None
    } else if is_record(ls[0]) {
        Some(ls[0])
    } else {
        first_record(ls.drop_first())
    }
}

/// The time-to-live in an answer listing: the second word of its first record
/// line, read as a number.
pub open spec fn ttl_in(answer: Seq<char>) -> Option<u32> {
    match first_record(lines(answer)) {
        Some(line) => match second_word(line) {
            Some(w) => parse_u32(w),
            None => None,
        },
        None => None,
    }
}

fn starts_with_semicolon(line: &String) -> (r: bool)
    ensures
        r == (line@.len() > 0 && line@[0] == ';'),
{
    let s = line.as_str();
    s.unicode_len() > 0 && s.get_char(0) == ';'
}

/// The addresses in a short answer: every record line, trimmed.
pub fn addresses_in(answer: &str) -> (r: Vec<String>)
    ensures
        texts(r@) == record_texts(lines(answer@)),
{
    let ls = split_lines(answer);
    let mut out: Vec<String> = Vec::new();
    let mut i: usize = 0;
    while i < ls.len()
        invariant
            0 <= i <= ls@.len(),
            texts(out@) == record_texts(texts(ls@.subrange(0, i as int))),
        decreases ls@.len() - i,
    {
        let line = &ls[i];
        assert(texts(ls@.subrange(0, i + 1)).drop_last() =~= texts(ls@.subrange(0, i as int)));
        assert(texts(ls@.subrange(0, i + 1)).last() == line@);
        if line.as_str().unicode_len() > 0 && !starts_with_semicolon(line) {
            let ghost before = out@;
            out.push(trim_text(line.as_str()));
            assert(texts(out@) =~= texts(before).push(trim(line@)));
        }
        i = i + 1;
    }
    assert(ls@.subrange(0, ls@.len() as int) =~= ls@);
    out
}

/// The names in a short name-server answer: every line that is not empty,
/// trimmed.
pub fn names_in(answer: &str) -> (r: Vec<String>)
    ensures
        texts(r@) == nonempty_texts(lines(answer@)),
{
    let ls = split_lines(answer);
    let mut out: Vec<String> = Vec::new();
    let mut i: usize = 0;
    while i < ls.len()
        invariant
            0 <= i <= ls@.len(),
            texts(out@) == nonempty_texts(texts(ls@.subrange(0, i as int))),
        decreases ls@.len() - i,
    {
        let line = &ls[i];
        assert(texts(ls@.subrange(0, i + 1)).drop_last() =~= texts(ls@.subrange(0, i as int)));
        assert(texts(ls@.subrange(0, i + 1)).last() == line@);
        if line.as_str().unicode_len() > 0 {
            let ghost before = out@;
            out.push(trim_text(line.as_str()));
            assert(texts(out@) =~= texts(before).push(trim(line@)));
        }
        i = i + 1;
    }
    assert(ls@.subrange(0, ls@.len() as int) =~= ls@);
    out
}

/// The time-to-live in a full answer listing.
pub fn ttl_from_answer(answer: &str) -> (r: Option<u32>)
    ensures
        r == ttl_in(answer@),
{
    let ls = split_lines(answer);
    let mut i: usize = 0;
    assert(texts(ls@).subrange(0, ls@.len() as int) =~= texts(ls@));
    while i < ls.len()
        invariant
            0 <= i <= ls@.len(),
            texts(ls@) == lines(answer@),
            first_record(texts(ls@)) == first_record(texts(ls@).subrange(i as int, ls@.len() as int)),
        decreases ls@.len() - i,
    {
        let line = &ls[i];
        let ghost rest = texts(ls@).subrange(i as int, ls@.len() as int);
        assert(rest[0] == line@);
        assert(rest.drop_first() =~= texts(ls@).subrange(i + 1, ls@.len() as int));
        if line.as_str().unicode_len() > 0 && !starts_with_semicolon(line) {
            assert(first_record(rest) == Some(line@));
            return match second_word_of(line.as_str()) {
                Some(w) => parse_u32_text(w.as_str()),
                None => None,
            };
        }
        i = i + 1;
    }
    assert(texts(ls@).subrange(ls@.len() as int, ls@.len() as int) =~= Seq::<Seq<char>>::empty());
    None
}

/// The outcome of resolving `domain`, from what the lookup tool wrote: the
/// short address answer, the time it took, and, where those queries ran, the
/// full answer listing and the short name-server answer.
pub fn dns_result_from_output(
    domain: &str,
    answer: &str,
    lookup_time_us: u64,
    listing: Option<&str>,
    ns_answer: Option<&str>,
) -> (r: DnsResult)
    ensures
        r.domain@ == domain@,
        texts(r.resolved_ips@) == record_texts(lines(answer@)),
        r.lookup_time_us == lookup_time_us,
        r.ttl == match listing {
            Some(l) => ttl_in(l@),
            None => None,
        },
        match ns_answer {
            Some(a) => (r.nameservers matches Some(ns) && texts(ns@) == nonempty_texts(
                lines(a@),
            )),
            None => r.nameservers is None,
        },
        opt_text(r.using_cdn) == cdn_label(
            lower_of(
                joined(
                    match ns_answer {
                        Some(a) => nonempty_texts(lines(a@)),
                        None => seq![],
                    },
                ),
            ),
        ),
{
    let resolved_ips = addresses_in(answer);
    let ttl = match listing {
        Some(l) => ttl_from_answer(l),
        None => None,
    };
    let nameservers = match ns_answer {
        Some(a) => Some(names_in(a)),
        None => None,
    };
    let using_cdn = match &nameservers {
        Some(ns) => detect_cdn(ns.as_slice()),
        None => {
            let none: Vec<String> = Vec::new();
            assert(texts(none@) =~= seq![]);
            detect_cdn(none.as_slice())
        },
    };
    DnsResult {
        domain: String::from_str(domain),
        resolved_ips,
        lookup_time_us,
        ttl,
        nameservers,
        using_cdn,
    }
}

} // verus!
