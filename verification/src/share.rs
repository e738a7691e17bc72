//! Sharing by link: the links a browser opens, the PIN setting, the items
//! behind a share, and the QR code drawn for a link.

use vstd::prelude::*;
use crate::fmt::decimal;
use crate::send_flow::SelectedFileInfo;
use crate::text::{chars_of, concat_str, string_of, trim, trim_chars};

verus! {

/// The bytes `urlencoding` leaves as they are.
pub open spec fn is_unreserved(b: u8) -> bool {
    (48 <= b <= 57) || (65 <= b <= 90) || (97 <= b <= 122) || b == 45 || b == 46 || b == 95 || b
        == 126
}

/// An upper-case hex digit.
pub open spec fn hex_digit(d: nat) -> char {
    if d < 10 {
        (48 + d) as char
    } else {
        (55 + d) as char
    }
}

/// Percent-encoding of bytes: unreserved bytes stay, every other byte becomes
/// `%` and two upper-case hex digits.
pub open spec fn percent_encoded(b: Seq<u8>) -> Seq<char>
    decreases b.len(),
{
    if b.len() == 0 {
        Seq::empty()
    } else {
        let last = b.last();
        percent_encoded(b.drop_last()) + (if is_unreserved(last) {
            seq![last as char]
        } else {
            seq!['%', hex_digit(last as nat / 16), hex_digit(last as nat % 16)]
        })
    }
}

/// `urlencoding::encode`: it percent-encodes every byte of the UTF-8 form of
/// the text except ASCII letters, digits and `-`, `.`, `_`, `~`, with
/// upper-case hex digits.
#[verifier::external_body]
fn url_encode(s: &str) -> (r: String)
    ensures
        r@ == percent_encoded(vstd::utf8::encode_utf8(s@)),
{
    urlencoding::encode(s).into_owned()
}

/// The scheme of share links: HTTPS when encryption is on.
pub open spec fn link_scheme(encryption: bool) -> Seq<char> {
    if encryption {
        "https"@
    } else {
        "http"@
    }
}

/// The PIN part of a link: `?pin=` and the encoded trimmed PIN, when a PIN is
/// required and not blank.
pub open spec fn pin_query(require_pin: bool, pin: Seq<char>) -> Seq<char> {
    if require_pin && trim(pin).len() != 0 {
        "?pin="@ + percent_encoded(vstd::utf8::encode_utf8(trim(pin)))
    } else {
        Seq::empty()
    }
}

/// The hosts links point at: the local addresses, or `127.0.0.1` when none
/// is known.
pub open spec fn link_hosts(local_ips: Seq<Seq<char>>) -> Seq<Seq<char>> {
    if local_ips.len() == 0 {
        seq!["127.0.0.1"@]
    } else {
        local_ips
    }
}

pub open spec fn share_link(
    scheme: Seq<char>,
    host: Seq<char>,
    port: u16,
    share_id: Seq<char>,
    query: Seq<char>,
) -> Seq<char> {
    scheme + "://"@ + host + ":"@ + decimal(port as nat) + "/share/"@ + share_id + query
}

/// The link settings a share depends on.
#[derive(Clone, Debug)]
pub struct LinkSettings {
    pub encryption: bool,
    pub require_pin: bool,
    pub receive_pin: String,
    pub server_port: u16,
}

/// One link per host, each `scheme://host:port/share/id` and the PIN part.
pub fn build_share_links(settings: &LinkSettings, local_ips: &Vec<String>, share_id: &str) -> (r: Vec<
    String,
>)
    ensures
        r@.len() == link_hosts(crate::net::string_views(local_ips@)).len(),
        forall|i: int|
            0 <= i < r@.len() ==> (#[trigger] r@[i])@ == share_link(
                link_scheme(settings.encryption),
                link_hosts(crate::net::string_views(local_ips@))[i],
                settings.server_port,
                share_id@,
                pin_query(settings.require_pin, settings.receive_pin@),
            ),
{
    let scheme = if settings.encryption {
        "https"
    } else {
        "http"
    };
    let fallback: Vec<String> = vec!["127.0.0.1".to_owned()];
    let hosts: &Vec<String> = if local_ips.len() == 0 {
        assert(crate::net::string_views(fallback@) =~= seq!["127.0.0.1"@]);
        &fallback
    } else {
        local_ips
    };
    let ghost hv = crate::net::string_views(hosts@);
    assert(hv == link_hosts(crate::net::string_views(local_ips@)));
    let query = if settings.require_pin {
        let pv = chars_of(settings.receive_pin.as_str());
        let t = trim_chars(pv.as_slice());
        if t.len() == 0 {
            String::new()
        } else {
            let pin = string_of(t.as_slice());
            let enc = url_encode(pin.as_str());
            concat_str("?pin=", enc.as_str())
        }
    } else {
        String::new()
    };
    let digits = crate::fmt::decimal_chars(settings.server_port as u64);
    let port_text = string_of(digits.as_slice());
    let mut r: Vec<String> = Vec::new();
    let mut i: usize = 0;
    while i < hosts.len()
        invariant
            0 <= i <= hosts@.len(),
            hv == crate::net::string_views(hosts@),
            r@.len() == i,
            query@ == pin_query(settings.require_pin, settings.receive_pin@),
            port_text@ == decimal(settings.server_port as nat),
            scheme@ == link_scheme(settings.encryption),
            forall|j: int|
                0 <= j < i ==> (#[trigger] r@[j])@ == share_link(
                    link_scheme(settings.encryption),
                    hv[j],
                    settings.server_port,
                    share_id@,
                    pin_query(settings.require_pin, settings.receive_pin@),
                ),
        decreases hosts@.len() - i,
    {
        let mut link = concat_str(scheme, "://");
        link.append(hosts[i].as_str());
        link.append(":");
        link.append(port_text.as_str());
        link.append("/share/");
        link.append(share_id);
        link.append(query.as_str());
        assert(hv[i as int] == hosts@[i as int]@);
        r.push(link);
        i = i + 1;
    }
    r
}

/// Turning the PIN requirement on with a blank PIN sets it to `123456`.
pub open spec fn pin_after_toggle(enabled: bool, pin: Seq<char>) -> Seq<char> {
    if enabled && trim(pin).len() == 0 {
        "123456"@
    } else {
        pin
    }
}

/// Applies the PIN switch: the new requirement and the PIN it keeps.
pub fn set_require_pin(settings: &mut LinkSettings, enabled: bool)
    ensures
        final(settings).require_pin == enabled,
        final(settings).receive_pin@ == pin_after_toggle(enabled, old(settings).receive_pin@),
        final(settings).encryption == old(settings).encryption,
        final(settings).server_port == old(settings).server_port,
{
    settings.require_pin = enabled;
    if enabled {
        let pv = chars_of(settings.receive_pin.as_str());
        let t = trim_chars(pv.as_slice());
        if t.len() == 0 {
            settings.receive_pin = "123456".to_owned();
        }
    }
}

/// Saves a PIN typed in the PIN dialog: a blank one is refused and changes
/// nothing; any other is stored trimmed and makes the PIN required.
pub fn save_share_pin(settings: &mut LinkSettings, typed: &str) -> (saved: bool)
    ensures
        saved == (trim(typed@).len() != 0),
        saved ==> final(settings).require_pin && final(settings).receive_pin@ == trim(typed@),
        !saved ==> final(settings).require_pin == old(settings).require_pin
            && final(settings).receive_pin == old(settings).receive_pin,
        final(settings).encryption == old(settings).encryption,
        final(settings).server_port == old(settings).server_port,
{
    let tv = chars_of(typed);
    let t = trim_chars(tv.as_slice());
    if t.len() == 0 {
        return false;
    }
    settings.receive_pin = string_of(t.as_slice());
    settings.require_pin = true;
    true
}

/// The PIN shown beside the links: the PIN when one is required.
pub fn pin_hint(settings: &LinkSettings) -> (r: Option<String>)
    ensures
        r == (if settings.require_pin {
            Some(settings.receive_pin)
        } else {
            None::<String>
        }),
{
    if settings.require_pin {
        Some(settings.receive_pin.clone())
    } else {
        None
    }
}

/// An item behind a share.
#[derive(Clone, Debug)]
pub enum SharedEntry {
    Text { name: String, content: String },
    File { name: String, path: String, file_type: String },
}

/// A text item is served under its name, or `message.txt` when it has none; a
/// file keeps its name, path and type.
pub open spec fn shared_entry_of(f: SelectedFileInfo, e: SharedEntry) -> bool {
    match f.text_content {
        Some(t) => e matches SharedEntry::Text { name, content } && name@ == (if f.name@.len() == 0 {
            "message.txt"@
        } else {
            f.name@
        }) && content == t,
        None => e matches SharedEntry::File { name, path, file_type } && name == f.name && path
            == f.path && file_type == f.file_type,
    }
}

/// The items behind a share of the selection; an empty selection cannot be
/// shared.
pub fn shared_entries(files: &Vec<SelectedFileInfo>) -> (r: Result<Vec<SharedEntry>, String>)
    ensures
        match r {
            Ok(v) => files@.len() > 0 && v@.len() == files@.len() && forall|i: int|
                0 <= i < files@.len() ==> shared_entry_of(files@[i], #[trigger] v@[i]),
            Err(m) => files@.len() == 0 && m@ == "请先选择要发送的文件或文本"@,
        },
{
    if files.len() == 0 {
        return Err("请先选择要发送的文件或文本".to_owned());
    }
    let mut v: Vec<SharedEntry> = Vec::new();
    let mut i: usize = 0;
    while i < files.len()
        invariant
            0 <= i <= files@.len(),
            v@.len() == i,
            forall|j: int| 0 <= j < i ==> shared_entry_of(files@[j], #[trigger] v@[j]),
        decreases files@.len() - i,
    {
        let f = &files[i];
        let e = match &f.text_content {
            Some(t) => SharedEntry::Text {
                name: if chars_of(f.name.as_str()).len() == 0 {
                    "message.txt".to_owned()
                } else {
                    f.name.clone()
                },
                content: t.clone(),
            },
            None => SharedEntry::File {
                name: f.name.clone(),
                path: f.path.clone(),
                file_type: f.file_type.clone(),
            },
        };
        v.push(e);
        i = i + 1;
    }
    Ok(v)
}

/// What the share page holds after asking for a share: its id, or why there
/// is none.
pub fn share_outcome(created: Option<String>) -> (r: Result<String, String>)
    ensures
        match created {
            Some(id) => r == Ok::<String, String>(id),
            None => r is Err && r->Err_0@ == "创建分享链接失败"@,
        },
{
    match created {
        Some(id) => Ok(id),
        None => Err("创建分享链接失败".to_owned()),
    }
}

/// Whether the share page should create a share: only when it holds neither
/// a share nor an error from an earlier attempt.
pub fn needs_share_link(share_id: &Option<String>, error_text: &Option<String>) -> (b: bool)
    ensures
        b == (share_id is None && error_text is None),
{
    share_id.is_none() && error_text.is_none()
}

} // verus!
