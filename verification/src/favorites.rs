//! Favorite devices: checking the add/edit form, and the texts of the
//! confirmation dialogs.

use vstd::prelude::*;
use crate::fmt::{decimal, parse_unsigned};
use crate::peer::{host_port, host_port_text};
use crate::text::{chars_eq, chars_of, concat_str, is_blank, is_blank_str, string_of, trim, trim_chars};

verus! {

/// A device kept in the favorites.
#[derive(Clone, Debug)]
pub struct FavoriteDevice {
    pub token: String,
    pub alias: String,
    pub ip: String,
    pub port: u16,
    pub https: bool,
    /// Whether the user named the device (else its announced name is kept).
    pub custom_alias: bool,
}

/// What the favorite form asks to store.
#[derive(Clone, Debug)]
pub struct FavoriteDraft {
    pub token: String,
    pub alias: String,
    pub ip: String,
    pub port: u16,
    pub https: bool,
    pub custom_alias: bool,
}

pub open spec fn port_error() -> Seq<char> {
    "端口必须是 1-65535 的数字"@
}

/// The outcome of the form: the address must not be blank and the port must
/// parse as a non-zero `u16`; a new favorite is keyed `manual:ip:port`, an
/// edited one keeps its token and HTTPS flag; the shown name is the alias, or
/// the address when no alias was given; the name counts as the user's own
/// when one was typed and the device had none, or it differs from the old one,
/// or it was the user's own before.
pub open spec fn favorite_form_result(
    alias_raw: Seq<char>,
    ip_raw: Seq<char>,
    port_raw: Seq<char>,
    preset: Option<FavoriteDevice>,
) -> Result<(Seq<char>, Seq<char>, Seq<char>, u16, bool, bool), Seq<char>> {
    let alias = trim(alias_raw);
    let ip = trim(ip_raw);
    let port = parse_unsigned(trim(port_raw), 65535);
    if ip.len() == 0 {
        Err("IP 地址不能为空"@)
    } else if port is None || port->0 == 0 {
        Err(port_error())
    } else {
        let p = port->0 as u16;
        let token = match preset {
            Some(f) => f.token@,
            None => "manual:"@ + ip + ":"@ + decimal(p as nat),
        };
        let shown = if alias.len() == 0 {
            ip
        } else {
            alias
        };
        let https = match preset {
            Some(f) => f.https,
            None => false,
        };
        let preset_alias = match preset {
            Some(f) => f.alias@,
            None => Seq::<char>::empty(),
        };
        let preset_custom = match preset {
            Some(f) => f.custom_alias,
            None => false,
        };
        let custom = if alias.len() == 0 {
            false
        } else if preset_alias.len() == 0 {
            true
        } else {
            preset_custom || alias != preset_alias
        };
        Ok((token, shown, ip, p, https, custom))
    }
}

pub open spec fn draft_view(d: FavoriteDraft) -> (Seq<char>, Seq<char>, Seq<char>, u16, bool, bool) {
    (d.token@, d.alias@, d.ip@, d.port, d.https, d.custom_alias)
}

/// Checks the favorite form and builds what it stores.
pub fn favorite_form(
    alias_raw: &str,
    ip_raw: &str,
    port_raw: &str,
    preset: Option<&FavoriteDevice>,
) -> (r: Result<FavoriteDraft, String>)
    ensures
        match r {
            Ok(d) => favorite_form_result(
                alias_raw@,
                ip_raw@,
                port_raw@,
                match preset {
                    Some(f) => Some(*f),
                    None => None,
                },
            ) == Ok::<_, Seq<char>>(draft_view(d)),
            Err(m) => favorite_form_result(
                alias_raw@,
                ip_raw@,
                port_raw@,
                match preset {
                    Some(f) => Some(*f),
                    None => None,
                },
            ) == Err::<(Seq<char>, Seq<char>, Seq<char>, u16, bool, bool), _>(m@),
        },
{
    let av = chars_of(alias_raw);
    let alias = trim_chars(av.as_slice());
    let iv = chars_of(ip_raw);
    let ip = trim_chars(iv.as_slice());
    let pv = chars_of(port_raw);
    let pt = trim_chars(pv.as_slice());
    if ip.len() == 0 {
        return Err("IP 地址不能为空".to_owned());
    }
    let port = match crate::fmt::parse_unsigned_chars(pt.as_slice(), 65535) {
        Some(p) => p,
        None => {
            return Err("端口必须是 1-65535 的数字".to_owned());
        },
    };
    if port == 0 {
        return Err("端口必须是 1-65535 的数字".to_owned());
    }
    let port = port as u16;
    let ip_text = string_of(ip.as_slice());
    let token = match preset {
        Some(f) => f.token.clone(),
        None => {
            let mut t = concat_str("manual:", ip_text.as_str());
            t.append(":");
            let digits = crate::fmt::decimal_chars(port as u64);
            let port_text = string_of(digits.as_slice());
            t.append(port_text.as_str());
            t
        },
    };
    let shown = if alias.len() == 0 {
        ip_text.clone()
    } else {
        string_of(alias.as_slice())
    };
    let https = match preset {
        Some(f) => f.https,
        None => false,
    };
    let custom = if alias.len() == 0 {
        false
    } else {
        match preset {
            None => true,
            Some(f) => {
                let ov = chars_of(f.alias.as_str());
                if ov.len() == 0 {
                    true
                } else {
                    f.custom_alias || !chars_eq(alias.as_slice(), ov.as_slice())
                }
            },
        }
    };
    Ok(FavoriteDraft { token, alias: shown, ip: ip_text, port, https, custom_alias: custom })
}

/// The title of the favorite form.
pub fn edit_favorite_title(editing: bool) -> (s: &'static str)
    ensures
        s@ == (if editing {
            "编辑收藏设备"@
        } else {
            "添加收藏设备"@
        }),
{
    if editing {
        "编辑收藏设备"
    } else {
        "添加收藏设备"
    }
}

/// The port the form starts with: the favorite's, or the default 53317.
pub fn initial_port_text(preset: Option<&FavoriteDevice>) -> (s: String)
    ensures
        s@ == match preset {
            Some(f) => decimal(f.port as nat),
            None => "53317"@,
        },
{
    match preset {
        Some(f) => {
            let digits = crate::fmt::decimal_chars(f.port as u64);
            string_of(digits.as_slice())
        },
        None => "53317".to_owned(),
    }
}

/// The question before a favorite is removed; a blank name reads `该设备`.
pub open spec fn remove_question(alias: Seq<char>) -> Seq<char> {
    let name = if is_blank(alias) {
        "该设备"@
    } else {
        alias
    };
    "确认将 \""@ + name + "\" 从收藏夹移除吗？"@
}

pub fn remove_favorite_question(alias: &str) -> (s: String)
    ensures
        s@ == remove_question(alias@),
{
    let name = if is_blank_str(alias) {
        "该设备".to_owned()
    } else {
        alias.to_owned()
    };
    let mut s = concat_str("确认将 \"", name.as_str());
    s.append("\" 从收藏夹移除吗？");
    s
}

/// The two lines shown before a favorite is added: its name (the address
/// when the name is blank) and its address.
pub open spec fn add_confirm_lines(alias: Seq<char>, ip: Seq<char>, port: u16) -> (Seq<char>, Seq<char>) {
    let name = if is_blank(alias) {
        ip
    } else {
        alias
    };
    ("设备名："@ + name, "地址："@ + host_port(ip, port))
}

pub fn add_favorite_lines(alias: &str, ip: &str, port: u16) -> (r: (String, String))
    ensures
        (r.0@, r.1@) == add_confirm_lines(alias@, ip@, port),
{
    let name = if is_blank_str(alias) {
        ip
    } else {
        alias
    };
    let first = concat_str("设备名：", name);
    let addr = host_port_text(ip, port);
    let second = concat_str("地址：", addr.as_str());
    (first, second)
}

/// Sending to a favorite goes ahead only when the favorite answered a probe.
pub fn favorite_send_target(reachable: bool, favorite: &FavoriteDevice) -> (r: Result<
    (String, u16),
    String,
>)
    ensures
        match r {
            Ok((ip, port)) => reachable && ip == favorite.ip && port == favorite.port,
            Err(m) => !reachable && m@ == "收藏设备暂不可达，请确认设备在线并在同一网络。"@,
        },
{
    if !reachable {
        return Err("收藏设备暂不可达，请确认设备在线并在同一网络。".to_owned());
    }
    Ok((favorite.ip.clone(), favorite.port))
}

} // verus!
