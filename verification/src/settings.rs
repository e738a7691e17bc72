//! The settings forms: what each one accepts, the rule lists it edits, and the
//! address dialog of the send tab.

use vstd::prelude::*;
use crate::fmt::parse_unsigned;
use crate::text::{chars_eq, chars_of, extend_chars, join_with, push_joined, split_chars, split_on, string_of, trim, trim_chars, trim_end, trim_start, views};

verus! {

/// A text field that must not be blank: its trimmed text, or the given error.
pub open spec fn required_field(raw: Seq<char>, error: Seq<char>) -> Result<Seq<char>, Seq<char>> {
    if trim(raw).len() == 0 {
        Err(error)
    } else {
        Ok(trim(raw))
    }
}

pub open spec fn result_view(r: Result<String, String>) -> Result<Seq<char>, Seq<char>> {
    match r {
        Ok(s) => Ok(s@),
        Err(e) => Err(e@),
    }
}

fn required_text(raw: &str, error: &str) -> (r: Result<String, String>)
    ensures
        result_view(r) == required_field(raw@, error@),
{
    let v = chars_of(raw);
    let t = trim_chars(v.as_slice());
    if t.len() == 0 {
        Err(error.to_owned())
    } else {
        Ok(string_of(t.as_slice()))
    }
}

/// The alias of this device: not blank.
pub fn check_server_alias(raw: &str) -> (r: Result<String, String>)
    ensures
        result_view(r) == required_field(raw@, "别名不能为空"@),
{
    required_text(raw, "别名不能为空")
}

/// A PIN, for receiving or for the receiver's prompt: not blank.
pub fn check_pin(raw: &str) -> (r: Result<String, String>)
    ensures
        result_view(r) == required_field(raw@, "PIN 不能为空"@),
{
    required_text(raw, "PIN 不能为空")
}

/// The multicast group: not blank.
pub fn check_multicast_group(raw: &str) -> (r: Result<String, String>)
    ensures
        result_view(r) == required_field(raw@, "组播地址不能为空"@),
{
    required_text(raw, "组播地址不能为空")
}

/// The server port: a `u16` other than 0, else an error.
pub open spec fn port_field(raw: Seq<char>) -> Result<u16, Seq<char>> {
    let p = parse_unsigned(trim(raw), 65535);
    if p is Some && p->0 != 0 {
        Ok(p->0 as u16)
    } else {
        Err("端口必须是 1-65535 的数字"@)
    }
}

pub fn check_server_port(raw: &str) -> (r: Result<u16, String>)
    ensures
        match r {
            Ok(p) => port_field(raw@) == Ok::<u16, Seq<char>>(p),
            Err(e) => port_field(raw@) == Err::<u16, Seq<char>>(e@),
        },
{
    let v = chars_of(raw);
    let t = trim_chars(v.as_slice());
    match crate::fmt::parse_unsigned_chars(t.as_slice(), 65535) {
        Some(p) => if p != 0 {
            Ok(p as u16)
        } else {
            Err("端口必须是 1-65535 的数字".to_owned())
        },
        None => Err("端口必须是 1-65535 的数字".to_owned()),
    }
}

/// The discovery timeout in milliseconds: a `u32`, raised to at least 200.
pub open spec fn timeout_field(raw: Seq<char>) -> Result<u32, Seq<char>> {
    let p = parse_unsigned(trim(raw), 4294967295);
    if p is Some {
        Ok(if p->0 < 200 {
            200u32
        } else {
            p->0 as u32
        })
    } else {
        Err("请输入有效数字"@)
    }
}

pub fn check_discovery_timeout(raw: &str) -> (r: Result<u32, String>)
    ensures
        match r {
            Ok(t) => timeout_field(raw@) == Ok::<u32, Seq<char>>(t),
            Err(e) => timeout_field(raw@) == Err::<u32, Seq<char>>(e@),
        },
{
    let v = chars_of(raw);
    let t = trim_chars(v.as_slice());
    match crate::fmt::parse_unsigned_chars(t.as_slice(), 4294967295) {
        Some(p) => {
            let p = p as u32;
            Ok(if p < 200 {
                200
            } else {
                p
            })
        },
        None => Err("请输入有效数字".to_owned()),
    }
}

/// The title of the receiver-PIN prompt.
pub fn send_pin_prompt_title(show_invalid_pin: bool) -> (s: &'static str)
    ensures
        s@ == (if show_invalid_pin {
            "PIN 错误，请重试"@
        } else {
            "请输入接收端 PIN"@
        }),
{
    if show_invalid_pin {
        "PIN 错误，请重试"
    } else {
        "请输入接收端 PIN"
    }
}

/// The notice when no receive folder was picked.
pub fn destination_not_picked_notice() -> (s: &'static str)
    ensures
        s@ == "未选择接收目录，保持当前配置。"@,
{
    "未选择接收目录，保持当前配置。"
}

/// The lines of a text, each trimmed, blank ones dropped, in order.
pub open spec fn kept_lines(lines: Seq<Seq<char>>) -> Seq<Seq<char>>
    decreases lines.len(),
{
    if lines.len() == 0 {
        Seq::empty()
    } else {
        let rest = kept_lines(lines.drop_last());
        if trim(lines.last()).len() == 0 {
            rest
        } else {
            rest.push(trim(lines.last()))
        }
    }
}

/// The filter rules typed one per line.
pub open spec fn filter_rules_of(text: Seq<char>) -> Seq<Seq<char>> {
    kept_lines(split_on(text, '\n'))
}

/// Reads the filter rules from the text of the rules dialog.
pub fn parse_network_filters(text: &str) -> (r: Vec<String>)
    ensures
        crate::net::string_views(r@) == filter_rules_of(text@),
{
    let v = chars_of(text);
    let lines = split_chars(v.as_slice(), '\n');
    let ghost all = views(lines@);
    let mut r: Vec<String> = Vec::new();
    let mut i: usize = 0;
    while i < lines.len()
        invariant
            0 <= i <= lines@.len(),
            all == views(lines@),
            all == split_on(v@, '\n'),
            v@ == text@,
            crate::net::string_views(r@) == kept_lines(all.subrange(0, i as int)),
        decreases lines@.len() - i,
    {
        proof {
            assert(all.subrange(0, i + 1).drop_last() == all.subrange(0, i as int));
            assert(all[i as int] == lines@[i as int]@);
        }
        let t = trim_chars(lines[i].as_slice());
        if t.len() != 0 {
            let s = string_of(t.as_slice());
            let ghost before = r@;
            r.push(s);
            assert(crate::net::string_views(r@) =~= crate::net::string_views(before).push(t@));
        }
        i = i + 1;
    }
    assert(all.subrange(0, all.len() as int) == all);
    r
}

/// The text the rules dialog starts with: the rules, one per line.
pub fn network_filters_text(rules: &Vec<String>) -> (s: String)
    ensures
        s@ == join_with(crate::net::string_views(rules@), seq!['\n']),
{
    let sep: Vec<char> = vec!['\n'];
    let mut out: Vec<char> = Vec::new();
    let ghost all = crate::net::string_views(rules@);
    let mut i: usize = 0;
    while i < rules.len()
        invariant
            0 <= i <= rules@.len(),
            all == crate::net::string_views(rules@),
            sep@ == seq!['\n'],
            out@ == join_with(all.subrange(0, i as int), seq!['\n']),
        decreases rules@.len() - i,
    {
        let piece = chars_of(rules[i].as_str());
        let ghost done = all.subrange(0, i as int);
        push_joined(&mut out, piece.as_slice(), sep.as_slice(), i == 0, Ghost(done));
        assert(done.push(piece@) =~= all.subrange(0, i + 1));
        i = i + 1;
    }
    assert(all.subrange(0, all.len() as int) =~= all);
    string_of(out.as_slice())
}

/// The most rules the discovery-target list holds.
pub const MAX_DISCOVERY_TARGETS: usize = 32;

/// The rows the discovery-target dialog shows: the stored rules, or one empty
/// row when there are none.
pub fn initial_subnet_rows(rules: Vec<String>) -> (r: Vec<String>)
    ensures
        rules@.len() == 0 ==> r@.len() == 1 && r@[0]@ == Seq::<char>::empty(),
        rules@.len() > 0 ==> r@ == rules@,
{
    if rules.len() == 0 {
        vec![String::new()]
    } else {
        rules
    }
}

/// Adds an empty row after row `idx`; a full list is refused with a notice.
pub fn add_subnet_row(rows: &mut Vec<String>, idx: usize) -> (r: Result<(), String>)
    requires
        idx < old(rows)@.len(),
    ensures
        match r {
            Ok(()) => old(rows)@.len() < MAX_DISCOVERY_TARGETS && final(rows)@ == old(rows)@.insert(
                idx + 1,
                final(rows)@[idx + 1],
            ) && final(rows)@[idx + 1]@ == Seq::<char>::empty(),
            Err(m) => old(rows)@.len() >= MAX_DISCOVERY_TARGETS && final(rows)@ == old(rows)@ && m@
                == "最多支持 32 条发现目标规则。"@,
        },
{
    if rows.len() >= MAX_DISCOVERY_TARGETS {
        return Err("最多支持 32 条发现目标规则。".to_owned());
    }
    rows.insert(idx + 1, String::new());
    Ok(())
}

/// Removes row `idx`; the last row is emptied instead.
pub fn remove_subnet_row(rows: &mut Vec<String>, idx: usize)
    requires
        idx < old(rows)@.len(),
    ensures
        old(rows)@.len() <= 1 ==> final(rows)@.len() == 1 && final(rows)@[0]@ == Seq::<
            char,
        >::empty(),
        old(rows)@.len() > 1 ==> final(rows)@ == old(rows)@.remove(idx as int),
{
    if rows.len() <= 1 {
        *rows = vec![String::new()];
    } else {
        rows.remove(idx);
    }
}

/// The rows of the dialog, trimmed, blank ones dropped, split by whether the
/// rule is valid; valid rules keep their first occurrence only.
pub open spec fn sorted_rules(
    rows: Seq<Seq<char>>,
    valid: Seq<bool>,
) -> (Seq<Seq<char>>, Seq<Seq<char>>)
    decreases rows.len(),
{
    if rows.len() == 0 {
        (Seq::empty(), Seq::empty())
    } else {
        let (good, bad) = sorted_rules(rows.drop_last(), valid);
        let t = trim(rows.last());
        if t.len() == 0 {
            (good, bad)
        } else if valid[rows.len() - 1] {
            if good.contains(t) {
                (good, bad)
            } else {
                (good.push(t), bad)
            }
        } else {
            (good, bad.push(t))
        }
    }
}

/// The rules saved from the dialog, or the notice naming up to three invalid
/// ones.
pub open spec fn subnet_save_result(rows: Seq<Seq<char>>, valid: Seq<bool>) -> Result<
    Seq<Seq<char>>,
    Seq<char>,
> {
    let (good, bad) = sorted_rules(rows, valid);
    if bad.len() == 0 {
        Ok(good)
    } else {
        Err(
            "存在无效网段规则："@ + join_with(bad.take(if bad.len() < 3 {
                bad.len() as int
            } else {
                3
            }), ", "@) + "。仅支持 /24~/32、192.168.2.*、192.168.2 或单个 IP。"@,
        )
    }
}

fn contains_text(v: &Vec<Vec<char>>, t: &[char]) -> (b: bool)
    ensures
        b == views(v@).contains(t@),
{
    let mut i: usize = 0;
    while i < v.len()
        invariant
            0 <= i <= v@.len(),
            forall|j: int| 0 <= j < i ==> (#[trigger] v@[j])@ != t@,
        decreases v@.len() - i,
    {
        if chars_eq(v[i].as_slice(), t) {
            assert(views(v@)[i as int] == t@);
            return true;
        }
        i = i + 1;
    }
    assert forall|j: int| 0 <= j < views(v@).len() implies views(v@)[j] != t@ by {
        assert(views(v@)[j] == v@[j]@);
    }
    false
}

/// Checks the rows of the discovery-target dialog; `valid[i]` tells whether
/// row `i`, trimmed, is a rule the discovery accepts.
pub fn save_subnet_rows(rows: &Vec<String>, valid: &Vec<bool>) -> (r: Result<Vec<String>, String>)
    requires
        valid@.len() == rows@.len(),
    ensures
        match r {
            Ok(v) => subnet_save_result(crate::net::string_views(rows@), valid@) == Ok::<
                Seq<Seq<char>>,
                Seq<char>,
            >(crate::net::string_views(v@)),
            Err(m) => subnet_save_result(crate::net::string_views(rows@), valid@) == Err::<
                Seq<Seq<char>>,
                Seq<char>,
            >(m@),
        },
{
    let ghost all = crate::net::string_views(rows@);
    let mut good: Vec<Vec<char>> = Vec::new();
    let mut bad: Vec<Vec<char>> = Vec::new();
    let mut i: usize = 0;
    while i < rows.len()
        invariant
            0 <= i <= rows@.len(),
            valid@.len() == rows@.len(),
            all == crate::net::string_views(rows@),
            (views(good@), views(bad@)) == sorted_rules(all.subrange(0, i as int), valid@),
        decreases rows@.len() - i,
    {
        proof {
            assert(all.subrange(0, i + 1).drop_last() == all.subrange(0, i as int));
            assert(all[i as int] == rows@[i as int]@);
        }
        let v = chars_of(rows[i].as_str());
        let t = trim_chars(v.as_slice());
        if t.len() != 0 {
            if valid[i] {
                if !contains_text(&good, t.as_slice()) {
                    let ghost before = good@;
                    good.push(t);
                    assert(views(good@) =~= views(before).push(trim(all[i as int])));
                }
            } else {
                let ghost before = bad@;
                bad.push(t);
                assert(views(bad@) =~= views(before).push(trim(all[i as int])));
            }
        }
        i = i + 1;
    }
    assert(all.subrange(0, all.len() as int) == all);
    if bad.len() == 0 {
        let mut out: Vec<String> = Vec::new();
        let mut k: usize = 0;
        while k < good.len()
            invariant
                0 <= k <= good@.len(),
                crate::net::string_views(out@) == views(good@).subrange(0, k as int),
            decreases good@.len() - k,
        {
            let ghost before = out@;
            out.push(string_of(good[k].as_slice()));
            assert(views(good@)[k as int] == good@[k as int]@);
            assert(crate::net::string_views(out@) =~= crate::net::string_views(before).push(good@[k as int]@));
            assert(crate::net::string_views(out@) =~= views(good@).subrange(0, k + 1));
            k = k + 1;
        }
        assert(views(good@).subrange(0, good@.len() as int) =~= views(good@));
        Ok(out)
    } else {
        let shown: usize = if bad.len() < 3 {
            bad.len()
        } else {
            3
        };
        let sep = chars_of(", ");
        let mut out: Vec<char> = chars_of("存在无效网段规则：");
        let ghost head = out@;
        let mut body: Vec<char> = Vec::new();
        let mut k: usize = 0;
        while k < shown
            invariant
                0 <= k <= shown <= bad@.len(),
                sep@ == ", "@,
                body@ == join_with(views(bad@).subrange(0, k as int), ", "@),
            decreases shown - k,
        {
            let ghost done = views(bad@).subrange(0, k as int);
            push_joined(&mut body, bad[k].as_slice(), sep.as_slice(), k == 0, Ghost(done));
            assert(done.push(bad@[k as int]@) =~= views(bad@).subrange(0, k + 1));
            k = k + 1;
        }
        assert(views(bad@).subrange(0, shown as int) =~= views(bad@).take(shown as int));
        extend_chars(&mut out, body.as_slice());
        let tail = chars_of("。仅支持 /24~/32、192.168.2.*、192.168.2 或单个 IP。");
        extend_chars(&mut out, tail.as_slice());
        Err(string_of(out.as_slice()))
    }
}

/// How the send-to-address dialog reads its field.
#[derive(Clone, Copy, Debug, PartialEq, Eq, Structural)]
pub enum AddressInputMode {
    /// The tag shown on the receiver (`#123`), completed with a local prefix.
    Label,
    IpAddress,
}

pub fn address_placeholder(mode: AddressInputMode) -> (s: &'static str)
    ensures
        s@ == match mode {
            AddressInputMode::Label => "#123"@,
            AddressInputMode::IpAddress => "输入IP地址"@,
        },
{
    match mode {
        AddressInputMode::Label => "#123",
        AddressInputMode::IpAddress => "输入IP地址",
    }
}

/// The hint under the field: up to three local prefixes, each completed the
/// way the mode expects.
pub open spec fn example_lines(prefixes: Seq<Seq<char>>, suffix: Seq<char>) -> Seq<char>
    decreases prefixes.len(),
{
    if prefixes.len() == 0 {
        Seq::empty()
    } else {
        example_lines(prefixes.drop_last(), suffix) + "\n- "@ + prefixes.last() + "."@ + suffix
    }
}

pub open spec fn address_example(mode: AddressInputMode, prefixes: Seq<Seq<char>>) -> Seq<char> {
    let shown = prefixes.take(if prefixes.len() < 3 {
        prefixes.len() as int
    } else {
        3
    });
    match mode {
        AddressInputMode::Label => if prefixes.len() == 0 {
            "示例：123\n可用网段：\n- 192.168.1."@
        } else {
            "示例：123\n可用网段："@ + example_lines(shown, Seq::empty())
        },
        AddressInputMode::IpAddress => if prefixes.len() == 0 {
            "示例：\n- 192.168.1.23\n- 192.168.1.123"@
        } else {
            "示例："@ + example_lines(shown, "123"@)
        },
    }
}

pub fn address_example_text(mode: AddressInputMode, prefixes: &Vec<String>) -> (s: String)
    ensures
        s@ == address_example(mode, crate::net::string_views(prefixes@)),
{
    let ghost all = crate::net::string_views(prefixes@);
    if prefixes.len() == 0 {
        return match mode {
            AddressInputMode::Label => "示例：123\n可用网段：\n- 192.168.1.".to_owned(),
            AddressInputMode::IpAddress => "示例：\n- 192.168.1.23\n- 192.168.1.123".to_owned(),
        };
    }
    let suffix: &str = match mode {
        AddressInputMode::Label => "",
        AddressInputMode::IpAddress => "123",
    };
    let mut out: Vec<char> = match mode {
        AddressInputMode::Label => chars_of("示例：123\n可用网段："),
        AddressInputMode::IpAddress => chars_of("示例："),
    };
    let ghost head = out@;
    let shown: usize = if prefixes.len() < 3 {
        prefixes.len()
    } else {
        3
    };
    let mut k: usize = 0;
    while k < shown
        invariant
            0 <= k <= shown <= prefixes@.len(),
            all == crate::net::string_views(prefixes@),
            out@ == head + example_lines(all.subrange(0, k as int), suffix@),
        decreases shown - k,
    {
        proof {
            assert(all.subrange(0, k + 1).drop_last() == all.subrange(0, k as int));
            assert(all[k as int] == prefixes@[k as int]@);
        }
        proof {
            reveal_strlit(".");
        }
        let a = chars_of("\n- ");
        extend_chars(&mut out, a.as_slice());
        let p = chars_of(prefixes[k].as_str());
        extend_chars(&mut out, p.as_slice());
        out.push('.');
        let s = chars_of(suffix);
        extend_chars(&mut out, s.as_slice());
        assert(out@ =~= head + example_lines(all.subrange(0, k + 1), suffix@));
        k = k + 1;
    }
    assert(all.subrange(0, shown as int) =~= all.take(shown as int));
    proof {
        reveal_strlit("");
        assert(""@ =~= Seq::<char>::empty());
        let sh = all.take(if all.len() < 3 { all.len() as int } else { 3 });
        assert(sh == all.take(shown as int));
        match mode {
            AddressInputMode::Label => {
                assert(suffix@ == Seq::<char>::empty());
                assert(out@ == "示例：123\n可用网段："@ + example_lines(sh, Seq::empty()));
            },
            AddressInputMode::IpAddress => {
                assert(out@ == "示例："@ + example_lines(sh, "123"@));
            },
        }
    }
    string_of(out.as_slice())
}

/// What the address dialog does with its field.
#[derive(Clone, Debug)]
pub enum AddressSubmit {
    /// The field is blank: the dialog stays open.
    KeepOpen,
    /// Send to this address.
    SendTo(String),
    /// The tag could not be completed to an address.
    Notice(String),
}

pub open spec fn address_submit_matches(
    r: AddressSubmit,
    mode: AddressInputMode,
    raw: Seq<char>,
    prefixes: Seq<Seq<char>>,
) -> bool {
    let t = trim(raw);
    if t.len() == 0 {
        r is KeepOpen
    } else {
        match mode {
            AddressInputMode::IpAddress => r matches AddressSubmit::SendTo(ip) && ip@ == t,
            AddressInputMode::Label => match crate::net::labeled_ip(t, prefixes) {
                Some(ip) => r matches AddressSubmit::SendTo(a) && a@ == ip,
                None => r matches AddressSubmit::Notice(m) && m@
                    == "无法根据标签推导可用 IP，请切换到“IP 地址”模式直接输入。"@,
            },
        }
    }
}

/// Decides what the address dialog does with what was typed.
pub fn submit_address(mode: AddressInputMode, raw: &str, prefixes: &Vec<String>) -> (r: AddressSubmit)
    ensures
        address_submit_matches(r, mode, raw@, crate::net::string_views(prefixes@)),
{
    let v = chars_of(raw);
    let t = trim_chars(v.as_slice());
    if t.len() == 0 {
        return AddressSubmit::KeepOpen;
    }
    let text = string_of(t.as_slice());
    match mode {
        AddressInputMode::IpAddress => AddressSubmit::SendTo(text),
        AddressInputMode::Label => match crate::net::resolve_labeled_ip(text.as_str(), prefixes.as_slice()) {
            Some(ip) => AddressSubmit::SendTo(ip),
            None => AddressSubmit::Notice(
                "无法根据标签推导可用 IP，请切换到“IP 地址”模式直接输入。".to_owned(),
            ),
        },
    }
}


/// Splitting after appending a text without separators extends the last piece.
proof fn lemma_split_append_plain(x: Seq<char>, t: Seq<char>, sep: char)
    requires
        !t.contains(sep),
    ensures
        split_on(x + t, sep) == split_on(x, sep).update(
            split_on(x, sep).len() - 1,
            split_on(x, sep).last() + t,
        ),
    decreases t.len(),
{
    crate::text::lemma_split_on_nonempty(x, sep);
    if t.len() == 0 {
        assert(x + t == x);
        assert(split_on(x, sep).last() + t == split_on(x, sep).last());
        assert(split_on(x, sep).update(split_on(x, sep).len() - 1, split_on(x, sep).last())
            =~= split_on(x, sep));
    } else {
        let t0 = t.drop_last();
        let c = t.last();
        assert(!t0.contains(sep)) by {
            if t0.contains(sep) {
                let k = choose|k: int| 0 <= k < t0.len() && t0[k] == sep;
                assert(t[k] == sep);
            }
        }
        assert(c != sep) by {
            assert(t[t.len() - 1] == c);
        }
        lemma_split_append_plain(x, t0, sep);
        let p = split_on(x, sep);
        assert((x + t).drop_last() == x + t0);
        assert((x + t).last() == c);
        crate::text::lemma_split_on_nonempty(x + t0, sep);
        let q = split_on(x + t0, sep);
        assert(q == p.update(p.len() - 1, p.last() + t0));
        assert(q.len() == p.len());
        assert(q.last() == p.last() + t0);
        assert(split_on(x + t, sep) == q.update(q.len() - 1, q.last().push(c)));
        assert((p.last() + t0).push(c) =~= p.last() + t);
        assert(q.update(q.len() - 1, q.last().push(c)) =~= p.update(p.len() - 1, p.last() + t));
    }
}

/// Splitting the lines joined by newlines gives the lines back, when none
/// holds a newline.
pub proof fn lemma_split_join_lines(rs: Seq<Seq<char>>)
    requires
        rs.len() > 0,
        forall|i: int| 0 <= i < rs.len() ==> !(#[trigger] rs[i]).contains('\n'),
    ensures
        split_on(join_with(rs, seq!['\n']), '\n') == rs,
    decreases rs.len(),
{
    if rs.len() == 1 {
        lemma_split_append_plain(Seq::empty(), rs[0], '\n');
        assert(Seq::<char>::empty() + rs[0] == rs[0]);
        assert(split_on(Seq::<char>::empty(), '\n') == seq![Seq::<char>::empty()]);
        assert(Seq::<char>::empty() + rs[0] =~= rs[0]);
        assert(seq![Seq::<char>::empty()].update(0, rs[0]) =~= rs);
    } else {
        let init = rs.drop_last();
        assert forall|i: int| 0 <= i < init.len() implies !(#[trigger] init[i]).contains('\n') by {
            assert(init[i] == rs[i]);
        }
        lemma_split_join_lines(init);
        let j = join_with(init, seq!['\n']);
        let x = j + seq!['\n'];
        assert(join_with(rs, seq!['\n']) == x + rs.last());
        assert(rs.last() == rs[rs.len() - 1]);
        lemma_split_append_plain(x, rs.last(), '\n');
        assert(x.drop_last() == j);
        assert(x.last() == '\n');
        assert(split_on(x, '\n') == init.push(Seq::<char>::empty()));
        assert(Seq::<char>::empty() + rs.last() =~= rs.last());
        assert(init.push(Seq::<char>::empty()).update(init.len() as int, rs.last()) =~= rs);
    }
}

/// Lines that are trimmed and not empty are kept as they are.
pub proof fn lemma_kept_lines_of_trimmed(rs: Seq<Seq<char>>)
    requires
        forall|i: int| 0 <= i < rs.len() ==> trim(#[trigger] rs[i]) == rs[i] && rs[i].len() > 0,
    ensures
        kept_lines(rs) == rs,
    decreases rs.len(),
{
    if rs.len() > 0 {
        let init = rs.drop_last();
        assert forall|i: int| 0 <= i < init.len() implies trim(#[trigger] init[i]) == init[i]
            && init[i].len() > 0 by {
            assert(init[i] == rs[i]);
        }
        lemma_kept_lines_of_trimmed(init);
        assert(rs.last() == rs[rs.len() - 1]);
        assert(init.push(rs.last()) =~= rs);
    }
}

/// Opening the rules dialog and saving it unchanged keeps the rules: reading
/// back the rules written one per line gives them again, when each rule is
/// trimmed, not empty, and holds no newline.
pub proof fn lemma_filter_rules_round_trip(rules: Seq<Seq<char>>)
    requires
        forall|i: int|
            0 <= i < rules.len() ==> trim(#[trigger] rules[i]) == rules[i] && rules[i].len() > 0
                && !rules[i].contains('\n'),
    ensures
        filter_rules_of(join_with(rules, seq!['\n'])) == rules,
{
    if rules.len() == 0 {
        assert(join_with(rules, seq!['\n']) == Seq::<char>::empty());
        assert(split_on(Seq::<char>::empty(), '\n') == seq![Seq::<char>::empty()]);
        assert(seq![Seq::<char>::empty()].drop_last() =~= Seq::<Seq<char>>::empty());
        let e = Seq::<char>::empty();
        assert(trim_start(e) == e);
        assert(trim_end(e) == e);
        assert(trim(e).len() == 0);
        assert(seq![e].last() == e);
        assert(kept_lines(seq![e].drop_last()) == Seq::<Seq<char>>::empty());
        assert(kept_lines(seq![e]) == Seq::<Seq<char>>::empty());
    } else {
        lemma_split_join_lines(rules);
        lemma_kept_lines_of_trimmed(rules);
    }
}

} // verus!
