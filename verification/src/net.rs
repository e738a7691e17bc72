//! Local IPv4 addresses: network filter rules, ranking of candidate
//! addresses, and the short labels shown for them.

use vstd::prelude::*;
use vstd::relations::{sorted_by, total_ordering};
use crate::fmt::{decimal, push_decimal};
use crate::fmt::parse_unsigned;
use crate::text::{
    chars_eq, chars_of, lemma_lex_lt_total, lemma_lex_lt_transitive, lex_less, lex_lt, split_chars,
    join_with, split_on, string_of, trim, trim_chars, views, starts_with, chars_starts_with,
};

verus! {

/// How the network filter rules are applied to local addresses.
#[derive(Clone, Copy, Debug, PartialEq, Eq, Structural)]
pub enum NetworkFilterMode {
    All,
    Whitelist,
    Blacklist,
}

/// The views of a sequence of strings.
pub open spec fn string_views(v: Seq<String>) -> Seq<Seq<char>> {
    v.map_values(|x: String| x@)
}

/// Whether an address matches a wildcard rule: both are trimmed; an empty one
/// never matches; `*` matches everything; a rule ending in `*` matches the
/// addresses that start with the rest of it; any other rule matches itself.
pub open spec fn wildcard_match(ip: Seq<char>, rule: Seq<char>) -> bool {
    let value = trim(ip);
    let pattern = trim(rule);
    if value.len() == 0 || pattern.len() == 0 {
        false
    } else if pattern == seq!['*'] {
        true
    } else if pattern.last() == '*' {
        starts_with(value, pattern.drop_last())
    } else {
        value == pattern
    }
}

/// Whether the filter rules are in force at all.
pub open spec fn filter_active(mode: NetworkFilterMode, rules: Seq<Seq<char>>) -> bool {
    mode != NetworkFilterMode::All && rules.len() != 0
}

/// Whether some rule matches the address.
pub open spec fn any_rule_matches(ip: Seq<char>, rules: Seq<Seq<char>>) -> bool {
    exists|i: int| 0 <= i < rules.len() && wildcard_match(ip, #[trigger] rules[i])
}

/// Whether an address passes the filters: always when they are not in force;
/// on a whitelist when some rule matches it; on a blacklist when none does.
pub open spec fn passes_filters(ip: Seq<char>, mode: NetworkFilterMode, rules: Seq<Seq<char>>) -> bool {
    if !filter_active(mode, rules) {
        true
    } else if mode == NetworkFilterMode::Whitelist {
        any_rule_matches(ip, rules)
    } else {
        !any_rule_matches(ip, rules)
    }
}

/// Matches an address against one wildcard rule.
pub fn wildcard_ip_match(ip: &str, rule: &str) -> (b: bool)
    ensures
        b == wildcard_match(ip@, rule@),
{
    let ip_chars = chars_of(ip);
    let rule_chars = chars_of(rule);
    let value = trim_chars(ip_chars.as_slice());
    let pattern = trim_chars(rule_chars.as_slice());
    if value.len() == 0 || pattern.len() == 0 {
        return false;
    }
    if pattern.len() == 1 && pattern[0] == '*' {
        assert(pattern@ =~= seq!['*']);
        return true;
    }
    proof {
        if pattern@ == seq!['*'] {
            assert(pattern@.len() == 1);
        }
    }
    let last = pattern[pattern.len() - 1];
    if last == '*' {
        let prefix = crate::text::slice_to_vec(pattern.as_slice(), 0, pattern.len() - 1);
        assert(prefix@ =~= pattern@.drop_last());
        return chars_starts_with(value.as_slice(), prefix.as_slice());
    }
    chars_eq(value.as_slice(), pattern.as_slice())
}

/// Whether the filter rules are in force (a filtering mode and at least one rule).
pub fn is_network_filter_active(mode: NetworkFilterMode, rules: &[String]) -> (b: bool)
    ensures
        b == filter_active(mode, string_views(rules@)),
{
    match mode {
        NetworkFilterMode::All => false,
        _ => rules.len() != 0,
    }
}

/// Whether a local address passes the network filters.
pub fn ip_matches_network_filters(ip: &str, mode: NetworkFilterMode, rules: &[String]) -> (b: bool)
    ensures
        b == passes_filters(ip@, mode, string_views(rules@)),
{
    let ghost views = string_views(rules@);
    if !is_network_filter_active(mode, rules) {
        return true;
    }
    let mut matched = false;
    let mut i: usize = 0;
    while i < rules.len()
        invariant
            0 <= i <= rules@.len(),
            views == string_views(rules@),
            matched == exists|j: int| 0 <= j < i && wildcard_match(ip@, #[trigger] views[j]),
        decreases rules@.len() - i,
    {
        if wildcard_ip_match(ip, rules[i].as_str()) {
            matched = true;
        }
        assert(views[i as int] == rules@[i as int]@);
        i = i + 1;
    }
    match mode {
        NetworkFilterMode::Whitelist => matched,
        _ => !matched,
    }
}

} // verus!

verus! {

/// An IPv4 address by its four octets.
#[derive(Clone, Copy, Debug, PartialEq, Eq, Structural)]
pub struct Ipv4 {
    pub a: u8,
    pub b: u8,
    pub c: u8,
    pub d: u8,
}

/// Octet-wise (lexicographic) order of addresses, as `Ipv4Addr::octets` compare.
pub open spec fn octets_le(x: Ipv4, y: Ipv4) -> bool {
    x.a < y.a || (x.a == y.a && (x.b < y.b || (x.b == y.b && (x.c < y.c || (x.c == y.c
        && x.d <= y.d)))))
}

/// Preference of an address: the primary route address first (10), then the
/// ordinary ones (1), and those ending in `.1`, usually gateways, last (0).
pub open spec fn rank_score(ip: Ipv4, primary: Option<Ipv4>) -> int {
    if primary == Some(ip) {
        10
    } else if ip.d == 1 {
        0
    } else {
        1
    }
}

/// The ranking order: higher score first, then octet order.
pub open spec fn rank_le(primary: Option<Ipv4>) -> spec_fn(Ipv4, Ipv4) -> bool {
    |x: Ipv4, y: Ipv4|
        rank_score(x, primary) > rank_score(y, primary) || (rank_score(x, primary)
            == rank_score(y, primary) && octets_le(x, y))
}

pub proof fn lemma_rank_le_total(primary: Option<Ipv4>)
    ensures
        total_ordering(rank_le(primary)),
{
    let r = rank_le(primary);
    assert forall|x: Ipv4, y: Ipv4| #[trigger] r(x, y) && #[trigger] r(y, x) implies x == y by {}
}

fn score_of(ip: Ipv4, primary: Option<Ipv4>) -> (s: u8)
    ensures
        s as int == rank_score(ip, primary),
{
    match primary {
        Some(p) => if p.a == ip.a && p.b == ip.b && p.c == ip.c && p.d == ip.d {
            return 10;
        },
        None => {},
    }
    if ip.d == 1 {
        0
    } else {
        1
    }
}

fn octets_le_exec(x: Ipv4, y: Ipv4) -> (b: bool)
    ensures
        b == octets_le(x, y),
{
    x.a < y.a || (x.a == y.a && (x.b < y.b || (x.b == y.b && (x.c < y.c || (x.c == y.c && x.d
        <= y.d)))))
}

fn rank_le_exec(x: Ipv4, y: Ipv4, primary: Option<Ipv4>) -> (b: bool)
    ensures
        b == rank_le(primary)(x, y),
{
    let sx = score_of(x, primary);
    let sy = score_of(y, primary);
    sx > sy || (sx == sy && octets_le_exec(x, y))
}

/// Orders candidate addresses: the primary route address first, then the
/// others with gateway-like `.1` addresses last, each group in octet order.
pub fn rank_ipv4_addresses(list: &mut Vec<Ipv4>, primary: Option<Ipv4>)
    ensures
        final(list)@ == old(list)@.sort_by(rank_le(primary)),
{
    broadcast use vstd::seq_lib::group_to_multiset_ensures;

    let ghost leq = rank_le(primary);
    proof {
        lemma_rank_le_total(primary);
    }
    let mut sorted: Vec<Ipv4> = Vec::new();
    let mut i: usize = 0;
    while i < list.len()
        invariant
            0 <= i <= list@.len(),
            leq == rank_le(primary),
            total_ordering(leq),
            sorted_by(sorted@, leq),
            sorted@.to_multiset() == list@.subrange(0, i as int).to_multiset(),
        decreases list@.len() - i,
    {
        let e = list[i];
        let mut j: usize = 0;
        while j < sorted.len() && rank_le_exec(sorted[j], e, primary)
            invariant
                0 <= j <= sorted@.len(),
                leq == rank_le(primary),
                forall|k: int| 0 <= k < j ==> #[trigger] leq(sorted@[k], e),
            decreases sorted@.len() - j,
        {
            j = j + 1;
        }
        let ghost old_sorted = sorted@;
        proof {
            if j < old_sorted.len() {
                assert(!leq(old_sorted[j as int], e));
                assert(leq(e, old_sorted[j as int]));
            }
        }
        sorted.insert(j, e);
        proof {
            assert(sorted@ == old_sorted.insert(j as int, e));
            assert forall|p: int, q: int| 0 <= p < q < sorted@.len() implies #[trigger] leq(
                sorted@[p],
                sorted@[q],
            ) by {
                if q < j {
                    assert(sorted@[p] == old_sorted[p] && sorted@[q] == old_sorted[q]);
                } else if q == j {
                    assert(sorted@[p] == old_sorted[p]);
                } else if p == j {
                    assert(sorted@[q] == old_sorted[q - 1]);
                    if q - 1 > j {
                        assert(leq(old_sorted[j as int], old_sorted[q - 1]));
                    }
                } else if p < j {
                    assert(sorted@[p] == old_sorted[p] && sorted@[q] == old_sorted[q - 1]);
                } else {
                    assert(sorted@[p] == old_sorted[p - 1] && sorted@[q] == old_sorted[q - 1]);
                }
            }
            assert(list@.subrange(0, i + 1) == list@.subrange(0, i as int).push(e));
            vstd::seq_lib::to_multiset_insert(old_sorted, j as int, e);
            vstd::seq_lib::to_multiset_build(list@.subrange(0, i as int), e);
        }
        i = i + 1;
    }
    proof {
        assert(list@.subrange(0, list@.len() as int) == list@);
        list@.lemma_sort_by_ensures(leq);
        vstd::seq_lib::lemma_sorted_unique(sorted@, list@.sort_by(leq), leq);
    }
    *list = sorted;
}

} // verus!

verus! {

/// The dotted-decimal text of an address (`Ipv4Addr::to_string`).
pub open spec fn ipv4_text(ip: Ipv4) -> Seq<char> {
    decimal(ip.a as nat) + seq!['.'] + decimal(ip.b as nat) + seq!['.'] + decimal(ip.c as nat)
        + seq!['.'] + decimal(ip.d as nat)
}

/// The dotted-decimal text of an address.
pub fn ipv4_to_string(ip: Ipv4) -> (s: String)
    ensures
        s@ == ipv4_text(ip),
{
    let mut v: Vec<char> = Vec::new();
    push_decimal(&mut v, ip.a as u64);
    v.push('.');
    push_decimal(&mut v, ip.b as u64);
    v.push('.');
    push_decimal(&mut v, ip.c as u64);
    v.push('.');
    push_decimal(&mut v, ip.d as u64);
    assert(v@ =~= ipv4_text(ip));
    string_of(v.as_slice())
}

/// An address of a network interface, as the interface list reports it.
#[derive(Clone, Copy, Debug)]
pub struct InterfaceAddress {
    pub ip: Ipv4,
    pub is_loopback: bool,
}

/// Link-local addresses (169.254.0.0/16), `Ipv4Addr::is_link_local`.
pub open spec fn is_link_local(ip: Ipv4) -> bool {
    ip.a == 169 && ip.b == 254
}

/// The addresses worth offering: not on a loopback interface, not link-local.
pub open spec fn usable_ips(s: Seq<InterfaceAddress>) -> Seq<Ipv4>
    decreases s.len(),
{
    if s.len() == 0 {
        Seq::<Ipv4>::empty()
    } else {
        let p = usable_ips(s.drop_last());
        if !s.last().is_loopback && !is_link_local(s.last().ip) {
            p.push(s.last().ip)
        } else {
            p
        }
    }
}

/// The texts of the addresses that pass the filters, in order.
pub open spec fn filtered_texts(s: Seq<Ipv4>, mode: NetworkFilterMode, rules: Seq<Seq<char>>) -> Seq<
    Seq<char>,
>
    decreases s.len(),
{
    if s.len() == 0 {
        Seq::<Seq<char>>::empty()
    } else {
        let p = filtered_texts(s.drop_last(), mode, rules);
        if passes_filters(ipv4_text(s.last()), mode, rules) {
            p.push(ipv4_text(s.last()))
        } else {
            p
        }
    }
}

/// `s` with later repetitions removed, first occurrences kept in order.
pub open spec fn dedup<T>(s: Seq<T>) -> Seq<T>
    decreases s.len(),
{
    if s.len() == 0 {
        Seq::<T>::empty()
    } else {
        let p = dedup(s.drop_last());
        if p.contains(s.last()) {
            p
        } else {
            p.push(s.last())
        }
    }
}

/// The local addresses a device announces: usable addresses in ranking order,
/// those that pass the filters, without repeats; if none is left, the primary
/// route address alone (when there is one).
pub open spec fn local_ipv4_list(
    ifaces: Seq<InterfaceAddress>,
    primary: Option<Ipv4>,
    mode: NetworkFilterMode,
    rules: Seq<Seq<char>>,
) -> Seq<Seq<char>> {
    let out = dedup(filtered_texts(usable_ips(ifaces).sort_by(rank_le(primary)), mode, rules));
    if out.len() == 0 && primary is Some {
        seq![ipv4_text(primary->0)]
    } else {
        out
    }
}

fn contains_string(v: &Vec<String>, s: &String) -> (b: bool)
    ensures
        b == string_views(v@).contains(s@),
{
    let mut i: usize = 0;
    while i < v.len()
        invariant
            0 <= i <= v@.len(),
            forall|j: int| 0 <= j < i ==> v@[j]@ != s@,
        decreases v@.len() - i,
    {
        let ghost vi = v@[i as int]@;
        let same = {
            let a = chars_of(v[i].as_str());
            let b = chars_of(s.as_str());
            chars_eq(a.as_slice(), b.as_slice())
        };
        if same {
            assert(string_views(v@)[i as int] == s@);
            return true;
        }
        i = i + 1;
    }
    assert forall|j: int| 0 <= j < string_views(v@).len() implies string_views(v@)[j] != s@ by {
        assert(string_views(v@)[j] == v@[j]@);
    }
    false
}

/// Chooses the addresses to announce from the interface list, the primary
/// route address and the network filters.
pub fn select_local_ipv4s(
    ifaces: &[InterfaceAddress],
    primary: Option<Ipv4>,
    mode: NetworkFilterMode,
    rules: &[String],
) -> (out: Vec<String>)
    ensures
        string_views(out@) == local_ipv4_list(ifaces@, primary, mode, string_views(rules@)),
{
    let mut ips: Vec<Ipv4> = Vec::new();
    let mut i: usize = 0;
    while i < ifaces.len()
        invariant
            0 <= i <= ifaces@.len(),
            ips@ == usable_ips(ifaces@.subrange(0, i as int)),
        decreases ifaces@.len() - i,
    {
        let x = ifaces[i];
        assert(ifaces@.subrange(0, i + 1).drop_last() == ifaces@.subrange(0, i as int));
        if !x.is_loopback && !(x.ip.a == 169 && x.ip.b == 254) {
            ips.push(x.ip);
        }
        i = i + 1;
    }
    assert(ifaces@.subrange(0, ifaces@.len() as int) == ifaces@);
    rank_ipv4_addresses(&mut ips, primary);
    let ghost ranked = ips@;
    let ghost views = string_views(rules@);
    let mut out: Vec<String> = Vec::new();
    let ghost mut kept: Seq<Seq<char>> = Seq::empty();
    let mut k: usize = 0;
    while k < ips.len()
        invariant
            0 <= k <= ips@.len(),
            ips@ == ranked,
            views == string_views(rules@),
            kept == filtered_texts(ranked.subrange(0, k as int), mode, views),
            string_views(out@) == dedup(kept),
        decreases ips@.len() - k,
    {
        let ip = ips[k];
        let text = ipv4_to_string(ip);
        assert(ranked.subrange(0, k + 1).drop_last() == ranked.subrange(0, k as int));
        assert(ranked.subrange(0, k + 1).last() == ip);
        if ip_matches_network_filters(text.as_str(), mode, rules) {
            proof {
                kept = kept.push(text@);
            }
            assert(kept.drop_last() =~= filtered_texts(ranked.subrange(0, k as int), mode, views));
            if !contains_string(&out, &text) {
                out.push(text);
                assert(string_views(out@) =~= dedup(kept.drop_last()).push(kept.last()));
            }
        }
        k = k + 1;
    }
    assert(ranked.subrange(0, ranked.len() as int) == ranked);
    if out.len() == 0 {
        match primary {
            Some(p) => {
                let t = ipv4_to_string(p);
                let mut fallback: Vec<String> = Vec::new();
                fallback.push(t);
                assert(string_views(fallback@) =~= seq![ipv4_text(p)]);
                return fallback;
            },
            None => {},
        }
    }
    out
}

} // verus!

verus! {

/// The first three octets of a dotted address text, re-printed ("192.168.1"):
/// each of the first three `.`-separated pieces must parse as a `u8`.
pub open spec fn ipv4_prefix_of(ip: Seq<char>) -> Option<Seq<char>> {
    let parts = split_on(ip, '.');
    if parts.len() >= 3 && parse_unsigned(parts[0], 255) is Some && parse_unsigned(parts[1], 255) is Some
        && parse_unsigned(parts[2], 255) is Some {
        Some(
            decimal(parse_unsigned(parts[0], 255)->0) + seq!['.'] + decimal(
                parse_unsigned(parts[1], 255)->0,
            ) + seq!['.'] + decimal(parse_unsigned(parts[2], 255)->0),
        )
    } else {
        None
    }
}

fn parse_octet(v: &[char]) -> (r: Option<u8>)
    ensures
        match r {
            Some(n) => parse_unsigned(v@, 255) == Some(n as nat),
            None => parse_unsigned(v@, 255) is None,
        },
{
    match crate::fmt::parse_unsigned_chars(v, 255) {
        Some(n) => Some(n as u8),
        None => None,
    }
}

/// The network prefix ("a.b.c") of a dotted address text.
pub fn ipv4_prefix(ip: &str) -> (r: Option<String>)
    ensures
        match r {
            Some(p) => ipv4_prefix_of(ip@) == Some(p@),
            None => ipv4_prefix_of(ip@) is None,
        },
{
    let chars = chars_of(ip);
    let parts = split_chars(chars.as_slice(), '.');
    assert(views(parts@) == split_on(ip@, '.'));
    if parts.len() < 3 {
        return None;
    }
    assert(views(parts@)[0] == parts@[0]@ && views(parts@)[1] == parts@[1]@ && views(parts@)[2]
        == parts@[2]@);
    let a = match parse_octet(parts[0].as_slice()) {
        Some(n) => n,
        None => return None,
    };
    let b = match parse_octet(parts[1].as_slice()) {
        Some(n) => n,
        None => return None,
    };
    let c = match parse_octet(parts[2].as_slice()) {
        Some(n) => n,
        None => return None,
    };
    let mut v: Vec<char> = Vec::new();
    push_decimal(&mut v, a as u64);
    v.push('.');
    push_decimal(&mut v, b as u64);
    v.push('.');
    push_decimal(&mut v, c as u64);
    assert(v@ =~= ipv4_prefix_of(ip@)->0);
    Some(string_of(v.as_slice()))
}

/// Strictly increasing in text order (so also free of repeats).
pub open spec fn strictly_sorted(s: Seq<Seq<char>>) -> bool {
    forall|i: int, j: int| 0 <= i < j < s.len() ==> lex_lt(#[trigger] s[i], #[trigger] s[j])
}

/// The prefixes of the given address texts that have one, plus that of the
/// primary route address, as a set.
pub open spec fn prefix_candidates(local_ips: Seq<Seq<char>>, primary: Option<Ipv4>) -> Set<Seq<char>> {
    Set::new(
        |p: Seq<char>|
            (exists|i: int|
                0 <= i < local_ips.len() && ipv4_prefix_of(#[trigger] local_ips[i]) == Some(p)) || (
            primary is Some && ipv4_prefix_of(ipv4_text(primary->0)) == Some(p)),
    )
}

/// Inserts `p` into a strictly sorted list unless it is already there.
fn insert_sorted_unique(out: &mut Vec<Vec<char>>, p: Vec<char>)
    requires
        strictly_sorted(views(old(out)@)),
    ensures
        strictly_sorted(views(final(out)@)),
        views(final(out)@).to_set() == views(old(out)@).to_set().insert(p@),
{
    let ghost old_v = views(out@);
    let mut j: usize = 0;
    while j < out.len() && lex_less(out[j].as_slice(), p.as_slice())
        invariant
            0 <= j <= out@.len(),
            old_v == views(out@),
            forall|k: int| 0 <= k < j ==> lex_lt(#[trigger] old_v[k], p@),
        decreases out@.len() - j,
    {
        assert(old_v[j as int] == out@[j as int]@);
        j = j + 1;
    }
    if j < out.len() {
        assert(old_v[j as int] == out@[j as int]@);
        proof {
            lemma_lex_lt_total(old_v[j as int], p@);
        }
        if chars_eq(out[j].as_slice(), p.as_slice()) {
            assert(old_v.to_set().insert(p@) =~= old_v.to_set()) by {
                assert(old_v.contains(p@));
            }
            return;
        }
        assert(lex_lt(p@, old_v[j as int]));
    }
    let ghost pv = p@;
    out.insert(j, p);
    proof {
        let nv = views(out@);
        assert(nv =~= old_v.insert(j as int, pv));
        assert forall|k: int| j <= k < old_v.len() implies lex_lt(pv, #[trigger] old_v[k]) by {
            if k > j {
                lemma_lex_lt_transitive(pv, old_v[j as int], old_v[k]);
            }
        }
        assert forall|a: int, b: int| 0 <= a < b < nv.len() implies lex_lt(
            #[trigger] nv[a],
            #[trigger] nv[b],
        ) by {
            if b < j {
                assert(nv[a] == old_v[a] && nv[b] == old_v[b]);
            } else if b == j {
                assert(nv[a] == old_v[a]);
            } else if a == j {
                assert(nv[b] == old_v[b - 1]);
            } else if a < j {
                assert(nv[a] == old_v[a] && nv[b] == old_v[b - 1]);
                lemma_lex_lt_transitive(old_v[a], pv, old_v[b - 1]);
            } else {
                assert(nv[a] == old_v[a - 1] && nv[b] == old_v[b - 1]);
            }
        }
        assert forall|x: Seq<char>| nv.to_set().contains(x) <==> old_v.to_set().insert(pv).contains(
            x,
        ) by {
            if nv.contains(x) {
                let k = choose|k: int| 0 <= k < nv.len() && nv[k] == x;
                if k < j {
                    assert(old_v[k] == x);
                } else if k > j {
                    assert(old_v[k - 1] == x);
                }
            }
            if old_v.contains(x) {
                let k = choose|k: int| 0 <= k < old_v.len() && old_v[k] == x;
                if k < j {
                    assert(nv[k] == x);
                } else {
                    assert(nv[k + 1] == x);
                }
            }
            if x == pv {
                assert(nv[j as int] == x);
            }
        }
        assert(nv.to_set() =~= old_v.to_set().insert(pv));
    }
}

/// The distinct network prefixes of the local addresses and of the primary
/// route address, in text order (what a `BTreeSet<String>` yields).
pub fn local_ip_prefixes(local_ips: &[String], primary: Option<Ipv4>) -> (out: Vec<String>)
    ensures
        strictly_sorted(string_views(out@)),
        string_views(out@).to_set() == prefix_candidates(string_views(local_ips@), primary),
{
    let ghost ips = string_views(local_ips@);
    let mut acc: Vec<Vec<char>> = Vec::new();
    let ghost mut seen: Set<Seq<char>> = Set::empty();
    let mut i: usize = 0;
    assert(views(acc@).to_set() =~= Set::<Seq<char>>::empty());
    while i < local_ips.len()
        invariant
            0 <= i <= local_ips@.len(),
            ips == string_views(local_ips@),
            strictly_sorted(views(acc@)),
            views(acc@).to_set() == seen,
            seen == Set::new(
                |p: Seq<char>|
                    exists|k: int| 0 <= k < i && ipv4_prefix_of(#[trigger] ips[k]) == Some(p),
            ),
        decreases local_ips@.len() - i,
    {
        assert(ips[i as int] == local_ips@[i as int]@);
        let ghost before = seen;
        match ipv4_prefix(local_ips[i].as_str()) {
            Some(p) => {
                let pc = chars_of(p.as_str());
                insert_sorted_unique(&mut acc, pc);
                proof {
                    seen = before.insert(p@);
                }
            },
            None => {},
        }
        proof {
            assert(seen =~= Set::new(
                |p: Seq<char>|
                    exists|k: int| 0 <= k < i + 1 && ipv4_prefix_of(#[trigger] ips[k]) == Some(p),
            ));
        }
        i = i + 1;
    }
    let ghost before = seen;
    match primary {
        Some(ip) => {
            let text = ipv4_to_string(ip);
            match ipv4_prefix(text.as_str()) {
                Some(p) => {
                    let pc = chars_of(p.as_str());
                    insert_sorted_unique(&mut acc, pc);
                    proof {
                        seen = before.insert(p@);
                    }
                },
                None => {},
            }
        },
        None => {},
    }
    assert(seen =~= prefix_candidates(ips, primary));
    let mut out: Vec<String> = Vec::new();
    let mut k: usize = 0;
    while k < acc.len()
        invariant
            0 <= k <= acc@.len(),
            string_views(out@) == views(acc@).subrange(0, k as int),
        decreases acc@.len() - k,
    {
        assert(views(acc@)[k as int] == acc@[k as int]@);
        let sv = string_of(acc[k].as_slice());
        let ghost before_out = out@;
        out.push(sv);
        assert(out@ == before_out.push(sv));
        assert(string_views(out@) =~= string_views(before_out).push(sv@));
        assert(string_views(out@) =~= views(acc@).subrange(0, k + 1));
        k = k + 1;
    }
    assert(views(acc@).subrange(0, acc@.len() as int) =~= views(acc@));
    out
}

} // verus!

verus! {

/// `s` without its leading run of `c` (`str::trim_start_matches(c)`).
pub open spec fn strip_leading(s: Seq<char>, c: char) -> Seq<char>
    decreases s.len(),
{
    if s.len() > 0 && s[0] == c {
        strip_leading(s.drop_first(), c)
    } else {
        s
    }
}

/// The address a short label such as "#23" names: the label, trimmed and
/// without leading `#`, must be a `u8`; it becomes the last octet under the
/// first local prefix.
pub open spec fn labeled_ip(label: Seq<char>, prefixes: Seq<Seq<char>>) -> Option<Seq<char>> {
    let suffix = strip_leading(trim(label), '#');
    if parse_unsigned(suffix, 255) is Some && prefixes.len() > 0 {
        Some(prefixes[0] + seq!['.'] + decimal(parse_unsigned(suffix, 255)->0))
    } else {
        None
    }
}

fn strip_leading_chars(v: &[char], c: char) -> (r: Vec<char>)
    ensures
        r@ == strip_leading(v@, c),
{
    let mut i: usize = 0;
    assert(v@.skip(0) == v@);
    while i < v.len() && v[i] == c
        invariant
            0 <= i <= v@.len(),
            strip_leading(v@, c) == strip_leading(v@.skip(i as int), c),
        decreases v@.len() - i,
    {
        assert(v@.skip(i as int).drop_first() == v@.skip(i + 1));
        i = i + 1;
    }
    assert(v@.skip(i as int) == v@.subrange(i as int, v@.len() as int));
    crate::text::slice_to_vec(v, i, v.len())
}

/// Resolves a short label ("#23") to an address under the first local prefix.
pub fn resolve_labeled_ip(label: &str, prefixes: &[String]) -> (r: Option<String>)
    ensures
        match r {
            Some(ip) => labeled_ip(label@, string_views(prefixes@)) == Some(ip@),
            None => labeled_ip(label@, string_views(prefixes@)) is None,
        },
{
    let raw = chars_of(label);
    let trimmed = trim_chars(raw.as_slice());
    let suffix = strip_leading_chars(trimmed.as_slice(), '#');
    let n = match crate::fmt::parse_unsigned_chars(suffix.as_slice(), 255) {
        Some(n) => n,
        None => return None,
    };
    if prefixes.len() == 0 {
        return None;
    }
    assert(string_views(prefixes@)[0] == prefixes@[0]@);
    let mut v = chars_of(prefixes[0].as_str());
    v.push('.');
    push_decimal(&mut v, n);
    assert(v@ =~= labeled_ip(label@, string_views(prefixes@))->0);
    Some(string_of(v.as_slice()))
}

/// The last `.`-separated piece of an address text.
pub open spec fn last_piece(ip: Seq<char>) -> Seq<char> {
    split_on(ip, '.').last()
}

/// The short id texts of a list of addresses: their last pieces without
/// repeats, each after a `#`, separated by spaces ("#12 #40").
pub open spec fn visual_ip_ids(ips: Seq<Seq<char>>) -> Seq<char> {
    let ids = dedup(ips.map_values(|ip: Seq<char>| last_piece(ip)));
    join_with(ids.map_values(|id: Seq<char>| seq!['#'] + id), seq![' '])
}

fn contains_chars(v: &Vec<Vec<char>>, x: &[char]) -> (b: bool)
    ensures
        b == views(v@).contains(x@),
{
    let mut i: usize = 0;
    while i < v.len()
        invariant
            0 <= i <= v@.len(),
            forall|j: int| 0 <= j < i ==> v@[j]@ != x@,
        decreases v@.len() - i,
    {
        if chars_eq(v[i].as_slice(), x) {
            assert(views(v@)[i as int] == x@);
            return true;
        }
        i = i + 1;
    }
    assert forall|j: int| 0 <= j < views(v@).len() implies views(v@)[j] != x@ by {
        assert(views(v@)[j] == v@[j]@);
    }
    false
}

/// The ids shown for the local addresses on the receive page ("#12 #40").
pub fn format_visual_ip_ids(server_ips: &[String]) -> (s: String)
    ensures
        s@ == visual_ip_ids(string_views(server_ips@)),
{
    let ghost ips = string_views(server_ips@);
    let ghost lasts = ips.map_values(|ip: Seq<char>| last_piece(ip));
    let mut ids: Vec<Vec<char>> = Vec::new();
    let mut i: usize = 0;
    while i < server_ips.len()
        invariant
            0 <= i <= server_ips@.len(),
            ips == string_views(server_ips@),
            lasts == ips.map_values(|ip: Seq<char>| last_piece(ip)),
            views(ids@) == dedup(lasts.subrange(0, i as int)),
        decreases server_ips@.len() - i,
    {
        let chars = chars_of(server_ips[i].as_str());
        let parts = split_chars(chars.as_slice(), '.');
        proof {
            crate::text::lemma_split_on_nonempty(chars@, '.');
            assert(ips[i as int] == server_ips@[i as int]@);
        }
        let id = crate::text::slice_to_vec(parts[parts.len() - 1].as_slice(), 0, parts[parts.len() - 1].len());
        assert(id@ == views(parts@).last());
        assert(lasts.subrange(0, i + 1).drop_last() == lasts.subrange(0, i as int));
        assert(lasts.subrange(0, i + 1).last() == id@);
        if !contains_chars(&ids, id.as_slice()) {
            let ghost before = ids@;
            ids.push(id);
            assert(views(ids@) =~= views(before).push(lasts[i as int]));
        }
        i = i + 1;
    }
    assert(lasts.subrange(0, lasts.len() as int) == lasts);
    let ghost tagged = views(ids@).map_values(|id: Seq<char>| seq!['#'] + id);
    let mut out: Vec<char> = Vec::new();
    let sep = [' '];
    let mut k: usize = 0;
    while k < ids.len()
        invariant
            0 <= k <= ids@.len(),
            tagged == views(ids@).map_values(|id: Seq<char>| seq!['#'] + id),
            sep@ == seq![' '],
            out@ == join_with(tagged.subrange(0, k as int), seq![' ']),
        decreases ids@.len() - k,
    {
        let mut piece: Vec<char> = Vec::new();
        piece.push('#');
        crate::text::extend_chars(&mut piece, ids[k].as_slice());
        assert(piece@ =~= tagged[k as int]);
        crate::text::push_joined(&mut out, piece.as_slice(), sep.as_slice(), k == 0, Ghost(tagged.subrange(0, k as int)));
        assert(tagged.subrange(0, k as int).push(piece@) =~= tagged.subrange(0, k + 1));
        k = k + 1;
    }
    assert(tagged.subrange(0, tagged.len() as int) == tagged);
    string_of(out.as_slice())
}

/// The last non-empty piece of a split, if any.
pub open spec fn last_nonempty(parts: Seq<Seq<char>>) -> Option<Seq<char>>
    decreases parts.len(),
{
    if parts.len() == 0 {
        None
    } else if parts.last().len() > 0 {
        Some(parts.last())
    } else {
        last_nonempty(parts.drop_last())
    }
}

/// The badge shown on a nearby device: `#` and the last non-empty
/// `.`-separated piece of its address.
pub open spec fn suffix_badge(ip: Seq<char>) -> Option<Seq<char>> {
    match last_nonempty(split_on(ip, '.')) {
        Some(seg) => Some(seq!['#'] + seg),
        None => None,
    }
}

/// The "#23"-style badge of a device address.
pub fn ip_suffix_badge(ip: &str) -> (r: Option<String>)
    ensures
        match r {
            Some(b) => suffix_badge(ip@) == Some(b@),
            None => suffix_badge(ip@) is None,
        },
{
    let chars = chars_of(ip);
    let parts = split_chars(chars.as_slice(), '.');
    let ghost ps = views(parts@);
    let mut n = parts.len();
    assert(ps.subrange(0, n as int) == ps);
    while n > 0 && parts[n - 1].len() == 0
        invariant
            0 <= n <= parts@.len(),
            ps == views(parts@),
            last_nonempty(ps) == last_nonempty(ps.subrange(0, n as int)),
        decreases n,
    {
        assert(ps.subrange(0, n as int).drop_last() == ps.subrange(0, n - 1));
        assert(ps.subrange(0, n as int).last() == parts@[n - 1]@);
        n = n - 1;
    }
    if n == 0 {
        assert(ps.subrange(0, 0) =~= Seq::<Seq<char>>::empty());
        return None;
    }
    assert(ps.subrange(0, n as int).last() == parts@[n - 1]@);
    let mut v: Vec<char> = Vec::new();
    v.push('#');
    crate::text::extend_chars(&mut v, parts[n - 1].as_slice());
    Some(string_of(v.as_slice()))
}

} // verus!
