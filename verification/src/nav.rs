//! Moving between pages and tabs, and the state the home page starts with.

use vstd::prelude::*;
use crate::modes::TabType;
use crate::text::{chars_eq, chars_of, is_blank, is_blank_str};

verus! {

/// Where the app is and how it got there.
#[derive(Clone, Debug)]
pub struct NavigationState {
    pub current: String,
    pub history: Vec<String>,
}

pub open spec fn navigated(before: NavigationState, after: NavigationState, path: Seq<char>) -> bool {
    if before.current@ == path {
        after == before
    } else {
        &&& after.current@ == path
        &&& after.history@.len() == before.history@.len() + 1
        &&& after.history@.subrange(0, before.history@.len() as int) == before.history@
        &&& after.history@.last()@ == path
    }
}

/// Goes to a page: nothing happens when it is the current one; otherwise it
/// becomes current and is added to the way back.
pub fn navigate_to(nav: &mut NavigationState, path: &str)
    ensures
        navigated(*old(nav), *final(nav), path@),
{
    let cur = chars_of(nav.current.as_str());
    let target = chars_of(path);
    if chars_eq(cur.as_slice(), target.as_slice()) {
        return;
    }
    nav.history.push(path.to_owned());
    nav.current = path.to_owned();
    assert(nav.history@.subrange(0, old(nav).history@.len() as int) =~= old(nav).history@);
}

/// Going to the same page twice in a row adds it to the way back once.
pub proof fn lemma_navigate_idempotent(
    n0: NavigationState,
    n1: NavigationState,
    n2: NavigationState,
    path: Seq<char>,
)
    requires
        navigated(n0, n1, path),
        navigated(n1, n2, path),
    ensures
        n2 == n1,
        n1.current@ == path,
{
}

/// The label of a tab.
pub fn tab_label(tab: TabType) -> (s: &'static str)
    ensures
        s@ == match tab {
            TabType::Receive => "接收"@,
            TabType::Send => "发送"@,
            TabType::Settings => "设置"@,
        },
{
    match tab {
        TabType::Receive => "接收",
        TabType::Send => "发送",
        TabType::Settings => "设置",
    }
}

/// The tabs, in the order the navigation shows them.
pub fn tab_order() -> (r: Vec<TabType>)
    ensures
        r@ == seq![TabType::Receive, TabType::Send, TabType::Settings],
{
    vec![TabType::Receive, TabType::Send, TabType::Settings]
}

/// A fresh random alias is given to this device when no settings were saved
/// yet or the saved alias is blank.
pub fn needs_new_alias(settings_saved: bool, stored_alias: &str) -> (b: bool)
    ensures
        b == (!settings_saved || is_blank(stored_alias@)),
{
    !settings_saved || is_blank_str(stored_alias)
}

} // verus!
