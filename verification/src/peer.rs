//! Peers: device types and their names, which discovered peers are listed,
//! the tokens peers are known by, and the random alias of this device.

use vstd::prelude::*;
use crate::fmt::decimal;
use crate::ids::random_uuid_bytes;
use crate::text::{ascii_lower, ascii_lower_chars, chars_eq, chars_eq_str, chars_of, concat_str, string_of, trim, trim_chars};

verus! {

/// The kind of device a peer says it is.
#[derive(Clone, Copy, Debug, PartialEq, Eq, Structural)]
pub enum DeviceType {
    Mobile,
    Desktop,
    Web,
    Headless,
    Server,
}

/// A device-type setting as compared: trimmed and in ASCII lower case.
pub open spec fn device_type_label(value: Seq<char>) -> Seq<char> {
    ascii_lower(trim(value))
}

pub fn normalize_device_type_label(value: &str) -> (r: String)
    ensures
        r@ == device_type_label(value@),
{
    let v = chars_of(value);
    let t = trim_chars(v.as_slice());
    let l = ascii_lower_chars(t.as_slice());
    string_of(l.as_slice())
}

/// The device type of a setting; anything unknown counts as a desktop.
pub open spec fn spec_parse_device_type(value: Seq<char>) -> Option<DeviceType> {
    let l = device_type_label(value);
    if l == "mobile"@ {
        Some(DeviceType::Mobile)
    } else if l == "desktop"@ {
        Some(DeviceType::Desktop)
    } else if l == "web"@ {
        Some(DeviceType::Web)
    } else if l == "headless"@ {
        Some(DeviceType::Headless)
    } else if l == "server"@ {
        Some(DeviceType::Server)
    } else {
        Some(DeviceType::Desktop)
    }
}

pub fn parse_device_type(value: &str) -> (r: Option<DeviceType>)
    ensures
        r == spec_parse_device_type(value@),
{
    let label = normalize_device_type_label(value);
    let l = chars_of(label.as_str());
    if chars_eq_str(l.as_slice(), "mobile") {
        Some(DeviceType::Mobile)
    } else if chars_eq_str(l.as_slice(), "desktop") {
        Some(DeviceType::Desktop)
    } else if chars_eq_str(l.as_slice(), "web") {
        Some(DeviceType::Web)
    } else if chars_eq_str(l.as_slice(), "headless") {
        Some(DeviceType::Headless)
    } else if chars_eq_str(l.as_slice(), "server") {
        Some(DeviceType::Server)
    } else {
        Some(DeviceType::Desktop)
    }
}

/// The device type a peer reports on the wire: its name in lower or in upper
/// case; anything else is no known type.
pub open spec fn spec_device_type_from_wire(value: Option<Seq<char>>) -> Option<DeviceType> {
    match value {
        Some(v) => if v == "mobile"@ || v == "MOBILE"@ {
            Some(DeviceType::Mobile)
        } else if v == "desktop"@ || v == "DESKTOP"@ {
            Some(DeviceType::Desktop)
        } else if v == "web"@ || v == "WEB"@ {
            Some(DeviceType::Web)
        } else if v == "headless"@ || v == "HEADLESS"@ {
            Some(DeviceType::Headless)
        } else if v == "server"@ || v == "SERVER"@ {
            Some(DeviceType::Server)
        } else {
            None
        },
        None => None,
    }
}

pub fn device_type_from_wire(value: Option<&str>) -> (r: Option<DeviceType>)
    ensures
        r == spec_device_type_from_wire(
            match value {
                Some(v) => Some(v@),
                None => None,
            },
        ),
{
    let v = match value {
        Some(v) => chars_of(v),
        None => {
            return None;
        },
    };
    let s = v.as_slice();
    if chars_eq_str(s, "mobile") || chars_eq_str(s, "MOBILE") {
        Some(DeviceType::Mobile)
    } else if chars_eq_str(s, "desktop") || chars_eq_str(s, "DESKTOP") {
        Some(DeviceType::Desktop)
    } else if chars_eq_str(s, "web") || chars_eq_str(s, "WEB") {
        Some(DeviceType::Web)
    } else if chars_eq_str(s, "headless") || chars_eq_str(s, "HEADLESS") {
        Some(DeviceType::Headless)
    } else if chars_eq_str(s, "server") || chars_eq_str(s, "SERVER") {
        Some(DeviceType::Server)
    } else {
        None
    }
}

pub open spec fn wire_name(d: DeviceType) -> Seq<char> {
    match d {
        DeviceType::Mobile => "mobile"@,
        DeviceType::Desktop => "desktop"@,
        DeviceType::Web => "web"@,
        DeviceType::Headless => "headless"@,
        DeviceType::Server => "server"@,
    }
}

/// The lower-case name a device type is sent under.
pub fn device_type_wire_name(d: DeviceType) -> (s: &'static str)
    ensures
        s@ == wire_name(d),
{
    match d {
        DeviceType::Mobile => "mobile",
        DeviceType::Desktop => "desktop",
        DeviceType::Web => "web",
        DeviceType::Headless => "headless",
        DeviceType::Server => "server",
    }
}

/// Reading back the name a device type is sent under gives that type again.
pub proof fn lemma_wire_name_round_trip(d: DeviceType)
    ensures
        spec_device_type_from_wire(Some(wire_name(d))) == Some(d),
{
    reveal_strlit("mobile");
    reveal_strlit("MOBILE");
    reveal_strlit("desktop");
    reveal_strlit("DESKTOP");
    reveal_strlit("web");
    reveal_strlit("WEB");
    reveal_strlit("headless");
    reveal_strlit("HEADLESS");
    reveal_strlit("server");
    reveal_strlit("SERVER");
    let n = wire_name(d);
    assert(n[0] != 'M' && n[0] != 'D' && n[0] != 'W' && n[0] != 'H' && n[0] != 'S');
    if d != DeviceType::Mobile {
        assert(n[0] != "mobile"@[0]);
    }
    if d != DeviceType::Desktop {
        assert(n[0] != "desktop"@[0]);
    }
    if d != DeviceType::Web {
        assert(n[0] != "web"@[0]);
    }
    if d != DeviceType::Headless {
        assert(n[0] != "headless"@[0]);
    }
    assert(n[0] != "MOBILE"@[0]);
    assert(n[0] != "DESKTOP"@[0]);
    assert(n[0] != "WEB"@[0]);
    assert(n[0] != "HEADLESS"@[0]);
}

/// The icon a device type is drawn with.
#[derive(Clone, Copy, Debug, PartialEq, Eq, Structural)]
pub enum DeviceIcon {
    Smartphone,
    Monitor,
    Globe,
    Server,
}

pub open spec fn spec_device_icon(d: Option<DeviceType>) -> DeviceIcon {
    match d {
        Some(DeviceType::Mobile) | None => DeviceIcon::Smartphone,
        Some(DeviceType::Desktop) => DeviceIcon::Monitor,
        Some(DeviceType::Web) => DeviceIcon::Globe,
        Some(DeviceType::Server) | Some(DeviceType::Headless) => DeviceIcon::Server,
    }
}

pub fn device_icon(d: Option<DeviceType>) -> (i: DeviceIcon)
    ensures
        i == spec_device_icon(d),
{
    match d {
        Some(DeviceType::Mobile) | None => DeviceIcon::Smartphone,
        Some(DeviceType::Desktop) => DeviceIcon::Monitor,
        Some(DeviceType::Web) => DeviceIcon::Globe,
        Some(DeviceType::Server) | Some(DeviceType::Headless) => DeviceIcon::Server,
    }
}

/// The device model announced for this device: the setting trimmed, or
/// `OpenHarmony` when it is blank.
pub open spec fn device_model_text(setting: Seq<char>) -> Seq<char> {
    if trim(setting).len() == 0 {
        "OpenHarmony"@
    } else {
        trim(setting)
    }
}

pub fn normalized_device_model(setting: &str) -> (r: Option<String>)
    ensures
        r is Some && r->0@ == device_model_text(setting@),
{
    let v = chars_of(setting);
    let t = trim_chars(v.as_slice());
    if t.len() == 0 {
        Some("OpenHarmony".to_owned())
    } else {
        Some(string_of(t.as_slice()))
    }
}

/// `ip:port`.
pub open spec fn host_port(ip: Seq<char>, port: u16) -> Seq<char> {
    ip + ":"@ + decimal(port as nat)
}

pub fn host_port_text(ip: &str, port: u16) -> (s: String)
    ensures
        s@ == host_port(ip@, port),
{
    let mut s = concat_str(ip, ":");
    let digits = crate::fmt::decimal_chars(port as u64);
    let port_text = string_of(digits.as_slice());
    s.append(port_text.as_str());
    s
}

/// What this device knows of a peer.
#[derive(Clone, Debug)]
pub struct PeerInfo {
    pub alias: String,
    pub version: String,
    pub device_model: Option<String>,
    pub device_type: Option<DeviceType>,
    pub token: String,
}

/// The token a peer is known by: its own, or its address when it sent none.
pub open spec fn peer_token(token: Seq<char>, ip: Seq<char>, port: u16) -> Seq<char> {
    if token.len() == 0 {
        host_port(ip, port)
    } else {
        token
    }
}

pub fn normalized_peer_token(info: &PeerInfo, ip: &str, port: u16) -> (r: String)
    ensures
        r@ == peer_token(info.token@, ip@, port),
{
    if chars_of(info.token.as_str()).len() == 0 {
        host_port_text(ip, port)
    } else {
        info.token.clone()
    }
}

/// A peer with its token filled in as `normalized_peer_token` gives it.
pub fn normalize_peer_info(info: PeerInfo, ip: &str, port: u16) -> (r: PeerInfo)
    ensures
        r.token@ == peer_token(info.token@, ip@, port),
        r.alias == info.alias,
        r.version == info.version,
        r.device_model == info.device_model,
        r.device_type == info.device_type,
{
    let mut info = info;
    if chars_of(info.token.as_str()).len() == 0 {
        info.token = host_port_text(ip, port);
    }
    info
}

/// A peer is listed when its trimmed alias is not empty and is not just its
/// (trimmed, non-empty) address.
pub open spec fn spec_should_display_peer(alias: Seq<char>, ip: Option<Seq<char>>) -> bool {
    let a = trim(alias);
    if a.len() == 0 {
        false
    } else {
        match ip {
            Some(i) => !(trim(i).len() != 0 && a == trim(i)),
            None => true,
        }
    }
}

pub fn should_display_peer(info: &PeerInfo, ip: Option<&str>) -> (b: bool)
    ensures
        b == spec_should_display_peer(
            info.alias@,
            match ip {
                Some(i) => Some(i@),
                None => None,
            },
        ),
{
    let av = chars_of(info.alias.as_str());
    let a = trim_chars(av.as_slice());
    if a.len() == 0 {
        return false;
    }
    if let Some(ip) = ip {
        let iv = chars_of(ip);
        let t = trim_chars(iv.as_slice());
        if t.len() != 0 && chars_eq(a.as_slice(), t.as_slice()) {
            return false;
        }
    }
    true
}

/// What a peer answers when this device introduces itself on a v2 route.
#[derive(Clone, Debug)]
pub struct RegisterReply {
    pub alias: String,
    pub version: Option<String>,
    pub device_model: Option<String>,
    pub device_type: Option<String>,
    pub token: Option<String>,
    pub fingerprint: Option<String>,
}

/// A peer remembered after a send, with where it was reached.
#[derive(Clone, Debug)]
pub struct RememberedPeer {
    pub info: PeerInfo,
    pub ip: String,
    pub port: u16,
    pub https: bool,
}

pub open spec fn opt_view(o: Option<String>) -> Option<Seq<char>> {
    match o {
        Some(s) => Some(s@),
        None => None,
    }
}

/// The peer a v2 introduction reply describes: version `1.0` when it gave
/// none, its fingerprint as token (else its token, else nothing), and HTTPS
/// when it was reached over `https`.
pub open spec fn remembered_from_reply(
    p: RememberedPeer,
    reply: RegisterReply,
    ip: Seq<char>,
    port: u16,
    scheme: Seq<char>,
) -> bool {
    &&& p.info.alias == reply.alias
    &&& p.info.version@ == match reply.version {
        Some(v) => v@,
        None => "1.0"@,
    }
    &&& p.info.device_model == reply.device_model
    &&& p.info.device_type == spec_device_type_from_wire(opt_view(reply.device_type))
    &&& p.info.token@ == match reply.fingerprint {
        Some(f) => f@,
        None => match reply.token {
            Some(t) => t@,
            None => Seq::<char>::empty(),
        },
    }
    &&& p.ip@ == ip
    &&& p.port == port
    &&& p.https == (scheme == "https"@)
}

pub fn peer_from_register_reply(reply: RegisterReply, ip: &str, port: u16, scheme: &str) -> (p:
    RememberedPeer)
    ensures
        remembered_from_reply(p, reply, ip@, port, scheme@),
{
    let device_type = match &reply.device_type {
        Some(t) => device_type_from_wire(Some(t.as_str())),
        None => device_type_from_wire(None),
    };
    let version = match reply.version {
        Some(v) => v,
        None => "1.0".to_owned(),
    };
    let token = match reply.fingerprint {
        Some(f) => f,
        None => match reply.token {
            Some(t) => t,
            None => String::new(),
        },
    };
    let sv = chars_of(scheme);
    let https = chars_eq_str(sv.as_slice(), "https");
    RememberedPeer {
        info: PeerInfo {
            alias: reply.alias,
            version,
            device_model: reply.device_model,
            device_type,
            token,
        },
        ip: ip.to_owned(),
        port,
        https,
    }
}


/// The adjectives a random alias starts with.
pub open spec fn alias_adjectives() -> Seq<Seq<char>> {
    seq![
        "可爱"@,
        "漂亮"@,
        "大气"@,
        "明亮"@,
        "清爽"@,
        "聪明"@,
        "酷炫"@,
        "灵巧"@,
        "机敏"@,
        "坚定"@,
        "活力"@,
        "高效"@,
        "奇妙"@,
        "迅捷"@,
        "优雅"@,
        "清新"@,
        "友好"@,
        "华丽"@,
        "卓越"@,
        "英俊"@,
        "热情"@,
        "善良"@,
        "温柔"@,
        "神秘"@,
        "整洁"@,
        "和善"@,
        "耐心"@,
        "秀丽"@,
        "强大"@,
        "富足"@,
        "低调"@,
        "智慧"@,
        "稳重"@,
        "特别"@,
        "沉着"@,
        "强韧"@,
        "利落"@,
        "睿智"@,
    ]
}

/// The fruits and vegetables a random alias ends with.
pub open spec fn alias_fruits() -> Seq<Seq<char>> {
    seq![
        "苹果"@,
        "牛油果"@,
        "香蕉"@,
        "黑莓"@,
        "蓝莓"@,
        "西兰花"@,
        "胡萝卜"@,
        "樱桃"@,
        "椰子"@,
        "葡萄"@,
        "柠檬"@,
        "生菜"@,
        "芒果"@,
        "甜瓜"@,
        "蘑菇"@,
        "洋葱"@,
        "橙子"@,
        "木瓜"@,
        "桃子"@,
        "梨子"@,
        "菠萝"@,
        "土豆"@,
        "南瓜"@,
        "覆盆子"@,
        "草莓"@,
        "番茄"@,
    ]
}

/// The alias drawn from a seed: the first two bytes, read big-endian, pick
/// the adjective and the next two the fruit, each modulo the list's length.
pub open spec fn alias_for_seed(b: Seq<u8>) -> Seq<char> {
    let adj = (b[0] as nat * 256 + b[1] as nat) % 38;
    let fruit = (b[2] as nat * 256 + b[3] as nat) % 26;
    alias_adjectives()[adj as int] + "的"@ + alias_fruits()[fruit as int]
}

fn alias_adjective(i: usize) -> (s: &'static str)
    requires
        i < 38,
    ensures
        s@ == alias_adjectives()[i as int],
{
    let words: [&'static str; 38] = [
        "可爱",
        "漂亮",
        "大气",
        "明亮",
        "清爽",
        "聪明",
        "酷炫",
        "灵巧",
        "机敏",
        "坚定",
        "活力",
        "高效",
        "奇妙",
        "迅捷",
        "优雅",
        "清新",
        "友好",
        "华丽",
        "卓越",
        "英俊",
        "热情",
        "善良",
        "温柔",
        "神秘",
        "整洁",
        "和善",
        "耐心",
        "秀丽",
        "强大",
        "富足",
        "低调",
        "智慧",
        "稳重",
        "特别",
        "沉着",
        "强韧",
        "利落",
        "睿智",
    ];
    words[i]
}

fn alias_fruit(i: usize) -> (s: &'static str)
    requires
        i < 26,
    ensures
        s@ == alias_fruits()[i as int],
{
    let words: [&'static str; 26] = [
        "苹果",
        "牛油果",
        "香蕉",
        "黑莓",
        "蓝莓",
        "西兰花",
        "胡萝卜",
        "樱桃",
        "椰子",
        "葡萄",
        "柠檬",
        "生菜",
        "芒果",
        "甜瓜",
        "蘑菇",
        "洋葱",
        "橙子",
        "木瓜",
        "桃子",
        "梨子",
        "菠萝",
        "土豆",
        "南瓜",
        "覆盆子",
        "草莓",
        "番茄",
    ];
    words[i]
}

/// The alias for a seed of random bytes.
pub fn alias_from_seed(b: [u8; 16]) -> (s: String)
    ensures
        s@ == alias_for_seed(b@),
{
    let adj = ((b[0] as usize) * 256 + b[1] as usize) % 38;
    let fruit = ((b[2] as usize) * 256 + b[3] as usize) % 26;
    let mut s = concat_str(alias_adjective(adj), "的");
    s.append(alias_fruit(fruit));
    s
}

/// A random alias for this device, as `形容词的水果`.
pub fn generate_random_alias() -> (s: String)
    ensures
        exists|b: Seq<u8>| b.len() == 16 && s@ == alias_for_seed(b),
{
    let seed = random_uuid_bytes();
    alias_from_seed(seed)
}

} // verus!
