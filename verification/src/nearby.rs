//! Nearby devices: how the devices found by a scan (or kept from earlier
//! scans) are merged into the send tab's list, and what tapping a device row
//! does.

use vstd::prelude::*;
use crate::peer::{
    host_port_text, peer_token, spec_should_display_peer, should_display_peer, DeviceType, PeerInfo,
};
use crate::text::{chars_eq, chars_of, lex_less, lex_lt};

verus! {

/// Where a nearby device was reached.
#[derive(Clone, Debug)]
pub struct DeviceEndpoint {
    pub ip: String,
    pub port: u16,
    pub https: bool,
}

/// A device a scan found.
#[derive(Clone, Debug)]
pub struct DiscoveredDevice {
    pub info: PeerInfo,
    pub ip: String,
    pub port: u16,
    pub https: bool,
}

/// Whether a keyed list holds a key.
pub open spec fn has_key<V>(l: Seq<(Seq<char>, V)>, k: Seq<char>) -> bool {
    exists|i: int| 0 <= i < l.len() && (#[trigger] l[i]).0 == k
}

/// No key occurs twice.
pub open spec fn unique_keys<V>(l: Seq<(Seq<char>, V)>) -> bool {
    forall|i: int, j: int| 0 <= i < j < l.len() ==> (#[trigger] l[i]).0 != (#[trigger] l[j]).0
}

pub open spec fn key_index<V>(l: Seq<(Seq<char>, V)>, k: Seq<char>) -> int {
    choose|i: int| 0 <= i < l.len() && (#[trigger] l[i]).0 == k
}

/// Sets the value of a key: in place when the key is there, else appended.
pub open spec fn upsert<V>(l: Seq<(Seq<char>, V)>, k: Seq<char>, v: V) -> Seq<(Seq<char>, V)> {
    if has_key(l, k) {
        l.update(key_index(l, k), (k, v))
    } else {
        l.push((k, v))
    }
}

/// The value of a key, if the list holds it.
pub open spec fn lookup<V>(l: Seq<(Seq<char>, V)>, k: Seq<char>) -> Option<V> {
    if has_key(l, k) {
        Some(l[key_index(l, k)].1)
    } else {
        None
    }
}

pub proof fn lemma_key_index_unique<V>(l: Seq<(Seq<char>, V)>, k: Seq<char>, i: int)
    requires
        unique_keys(l),
        0 <= i < l.len(),
        l[i].0 == k,
    ensures
        key_index(l, k) == i,
{
    let j = key_index(l, k);
    if j != i {
        if j < i {
            assert(l[j].0 != l[i].0);
        } else {
            assert(l[i].0 != l[j].0);
        }
    }
}

pub proof fn lemma_upsert_unique<V>(l: Seq<(Seq<char>, V)>, k: Seq<char>, v: V)
    requires
        unique_keys(l),
    ensures
        unique_keys(upsert(l, k, v)),
{
    let u = upsert(l, k, v);
    if has_key(l, k) {
        let i = key_index(l, k);
        assert forall|p: int, q: int| 0 <= p < q < u.len() implies (#[trigger] u[p]).0 != (
        #[trigger] u[q]).0 by {
            assert(u[p].0 == l[p].0 && u[q].0 == l[q].0);
        }
    } else {
        assert forall|p: int, q: int| 0 <= p < q < u.len() implies (#[trigger] u[p]).0 != (
        #[trigger] u[q]).0 by {
            if q == l.len() {
                assert(u[p] == l[p]);
            } else {
                assert(u[p] == l[p] && u[q] == l[q]);
            }
        }
    }
}

pub open spec fn endpoint_entries(l: Seq<(String, DeviceEndpoint)>) -> Seq<(Seq<char>, DeviceEndpoint)> {
    l.map_values(|e: (String, DeviceEndpoint)| (e.0@, e.1))
}

/// Finds the position of a key.
fn find_key<T>(l: &Vec<(String, T)>, k: &[char]) -> (r: Option<usize>)
    ensures
        match r {
            Some(i) => i < l@.len() && l@[i as int].0@ == k@,
            None => forall|i: int| 0 <= i < l@.len() ==> (#[trigger] l@[i]).0@ != k@,
        },
{
    let mut i: usize = 0;
    while i < l.len()
        invariant
            0 <= i <= l@.len(),
            forall|j: int| 0 <= j < i ==> (#[trigger] l@[j]).0@ != k@,
        decreases l@.len() - i,
    {
        let c = chars_of(l[i].0.as_str());
        if chars_eq(c.as_slice(), k) {
            return Some(i);
        }
        i = i + 1;
    }
    None
}

/// The endpoints after a scan: each found device is filed under its token
/// (or its address when it has none), replacing what was filed there.
pub open spec fn merged_endpoints(
    eps: Seq<(Seq<char>, DeviceEndpoint)>,
    ds: Seq<DiscoveredDevice>,
) -> Seq<(Seq<char>, DeviceEndpoint)>
    decreases ds.len(),
{
    if ds.len() == 0 {
        eps
    } else {
        let d = ds.last();
        upsert(
            merged_endpoints(eps, ds.drop_last()),
            peer_token(d.info.token@, d.ip@, d.port),
            DeviceEndpoint { ip: d.ip, port: d.port, https: d.https },
        )
    }
}

fn upsert_endpoint(l: &mut Vec<(String, DeviceEndpoint)>, key: String, v: DeviceEndpoint)
    requires
        unique_keys(endpoint_entries(old(l)@)),
    ensures
        endpoint_entries(final(l)@) == upsert(endpoint_entries(old(l)@), key@, v),
        unique_keys(endpoint_entries(final(l)@)),
{
    let ghost before = endpoint_entries(l@);
    let kc = chars_of(key.as_str());
    proof {
        lemma_upsert_unique(before, key@, v);
    }
    match find_key(l, kc.as_slice()) {
        Some(i) => {
            proof {
                assert(before[i as int].0 == key@);
                lemma_key_index_unique(before, key@, i as int);
            }
            l.set(i, (key, v));
            assert(endpoint_entries(l@) =~= upsert(before, kc@, v));
        },
        None => {
            assert(!has_key(before, key@)) by {
                if has_key(before, key@) {
                    let j = choose|j: int| 0 <= j < before.len() && (#[trigger] before[j]).0 == key@;
                    assert(l@[j].0@ == key@);
                }
            }
            l.push((key, v));
            assert(endpoint_entries(l@) =~= before.push((kc@, v)));
        },
    }
}

/// Files the endpoints of the found devices.
pub fn merge_endpoints(endpoints: &mut Vec<(String, DeviceEndpoint)>, found: &Vec<DiscoveredDevice>)
    requires
        unique_keys(endpoint_entries(old(endpoints)@)),
    ensures
        endpoint_entries(final(endpoints)@) == merged_endpoints(endpoint_entries(old(endpoints)@), found@),
        unique_keys(endpoint_entries(final(endpoints)@)),
{
    let ghost start = endpoint_entries(endpoints@);
    let mut i: usize = 0;
    while i < found.len()
        invariant
            0 <= i <= found@.len(),
            start == endpoint_entries(old(endpoints)@),
            endpoint_entries(endpoints@) == merged_endpoints(start, found@.subrange(0, i as int)),
            unique_keys(endpoint_entries(endpoints@)),
        decreases found@.len() - i,
    {
        let d = &found[i];
        proof {
            assert(found@.subrange(0, i + 1).drop_last() == found@.subrange(0, i as int));
            assert(found@.subrange(0, i + 1).last() == *d);
        }
        let key = if chars_of(d.info.token.as_str()).len() == 0 {
            host_port_text(d.ip.as_str(), d.port)
        } else {
            d.info.token.clone()
        };
        let ep = DeviceEndpoint { ip: d.ip.clone(), port: d.port, https: d.https };
        upsert_endpoint(endpoints, key, ep);
        i = i + 1;
    }
    assert(found@.subrange(0, found@.len() as int) == found@);
}


/// What the list shows of a peer.
pub type PeerView = (Seq<char>, Seq<char>, Option<Seq<char>>, Option<DeviceType>, Seq<char>);

pub open spec fn peer_view(p: PeerInfo) -> PeerView {
    (p.alias@, p.version@, crate::peer::opt_view(p.device_model), p.device_type, p.token@)
}

pub open spec fn peer_entries(l: Seq<(String, PeerInfo)>) -> Seq<(Seq<char>, PeerView)> {
    l.map_values(|e: (String, PeerInfo)| (e.0@, peer_view(e.1)))
}

pub open spec fn peer_views(l: Seq<PeerInfo>) -> Seq<PeerView> {
    l.map_values(|p: PeerInfo| peer_view(p))
}

/// The address a listed peer was reached at, if known.
pub open spec fn endpoint_ip(eps: Seq<(Seq<char>, DeviceEndpoint)>, token: Seq<char>) -> Option<Seq<char>> {
    match lookup(eps, token) {
        Some(e) => Some(e.ip@),
        None => None,
    }
}

/// The peers already listed that stay listed, filed by token.
pub open spec fn kept_peers(
    acc: Seq<(Seq<char>, PeerView)>,
    devs: Seq<PeerInfo>,
    eps: Seq<(Seq<char>, DeviceEndpoint)>,
) -> Seq<(Seq<char>, PeerView)>
    decreases devs.len(),
{
    if devs.len() == 0 {
        acc
    } else {
        let p = devs.last();
        let prev = kept_peers(acc, devs.drop_last(), eps);
        if spec_should_display_peer(p.alias@, endpoint_ip(eps, p.token@)) {
            upsert(prev, p.token@, peer_view(p))
        } else {
            prev
        }
    }
}

/// A found device as listed: its token filled in from its address when it
/// sent none.
pub open spec fn found_view(d: DiscoveredDevice) -> PeerView {
    (
        d.info.alias@,
        d.info.version@,
        crate::peer::opt_view(d.info.device_model),
        d.info.device_type,
        peer_token(d.info.token@, d.ip@, d.port),
    )
}

/// The found devices added to the list, filed by token.
pub open spec fn added_peers(acc: Seq<(Seq<char>, PeerView)>, ds: Seq<DiscoveredDevice>) -> Seq<
    (Seq<char>, PeerView),
>
    decreases ds.len(),
{
    if ds.len() == 0 {
        acc
    } else {
        let d = ds.last();
        let prev = added_peers(acc, ds.drop_last());
        if spec_should_display_peer(d.info.alias@, Some(d.ip@)) {
            upsert(prev, found_view(d).4, found_view(d))
        } else {
            prev
        }
    }
}

/// The entries of the list after a scan: the listed peers that still show
/// (judged by the merged endpoints), then the found ones, one per token.
pub open spec fn scan_entries(
    devs: Seq<PeerInfo>,
    eps: Seq<(Seq<char>, DeviceEndpoint)>,
    ds: Seq<DiscoveredDevice>,
) -> Seq<(Seq<char>, PeerView)> {
    added_peers(kept_peers(Seq::empty(), devs, merged_endpoints(eps, ds)), ds)
}

pub open spec fn entry_values(l: Seq<(Seq<char>, PeerView)>) -> Seq<PeerView> {
    l.map_values(|e: (Seq<char>, PeerView)| e.1)
}

/// Listed by alias, in code-point order.
pub open spec fn sorted_by_alias(l: Seq<PeerView>) -> bool {
    forall|i: int, j: int| 0 <= i < j < l.len() ==> !lex_lt((#[trigger] l[j]).0, (#[trigger] l[i]).0)
}

fn upsert_peer(l: &mut Vec<(String, PeerInfo)>, p: PeerInfo)
    requires
        unique_keys(peer_entries(old(l)@)),
    ensures
        peer_entries(final(l)@) == upsert(peer_entries(old(l)@), p.token@, peer_view(p)),
        unique_keys(peer_entries(final(l)@)),
{
    let ghost before = peer_entries(l@);
    let kc = chars_of(p.token.as_str());
    let key = crate::text::string_of(kc.as_slice());
    proof {
        lemma_upsert_unique(before, p.token@, peer_view(p));
    }
    match find_key(l, kc.as_slice()) {
        Some(i) => {
            proof {
                assert(before[i as int].0 == p.token@);
                lemma_key_index_unique(before, p.token@, i as int);
            }
            let ghost pv = peer_view(p);
            l.set(i, (key, p));
            assert(peer_entries(l@) =~= upsert(before, kc@, pv));
        },
        None => {
            assert(!has_key(before, p.token@)) by {
                if has_key(before, p.token@) {
                    let j = choose|j: int| 0 <= j < before.len() && (#[trigger] before[j]).0 == p.token@;
                    assert(l@[j].0@ == p.token@);
                }
            }
            let ghost pv = peer_view(p);
            l.push((key, p));
            assert(peer_entries(l@) =~= before.push((kc@, pv)));
        },
    }
}

fn copy_peer(p: &PeerInfo) -> (r: PeerInfo)
    ensures
        peer_view(r) == peer_view(*p),
{
    PeerInfo {
        alias: p.alias.clone(),
        version: p.version.clone(),
        device_model: match &p.device_model {
            Some(m) => Some(m.clone()),
            None => None,
        },
        device_type: p.device_type,
        token: p.token.clone(),
    }
}


fn endpoint_ip_of(eps: &Vec<(String, DeviceEndpoint)>, token: &str) -> (r: Option<String>)
    requires
        unique_keys(endpoint_entries(eps@)),
    ensures
        crate::peer::opt_view(r) == endpoint_ip(endpoint_entries(eps@), token@),
{
    let ghost entries = endpoint_entries(eps@);
    let kc = chars_of(token);
    match find_key(eps, kc.as_slice()) {
        Some(i) => {
            proof {
                assert(entries[i as int].0 == token@);
                lemma_key_index_unique(entries, token@, i as int);
            }
            Some(eps[i].1.ip.clone())
        },
        None => {
            assert(!has_key(entries, token@)) by {
                if has_key(entries, token@) {
                    let j = choose|j: int| 0 <= j < entries.len() && (#[trigger] entries[j]).0 == token@;
                    assert(eps@[j].0@ == token@);
                }
            }
            None
        },
    }
}

/// Every entry of a keyed list of peers is filed under the peer's own token.
pub open spec fn keyed_by_token(l: Seq<(Seq<char>, PeerView)>) -> bool {
    forall|i: int| 0 <= i < l.len() ==> (#[trigger] l[i]).1.4 == l[i].0
}

/// `v` shows a listed peer that is still displayed at its filed address.
pub open spec fn listed_origin(
    devs: Seq<PeerInfo>,
    eps: Seq<(Seq<char>, DeviceEndpoint)>,
    v: PeerView,
) -> bool {
    exists|i: int|
        0 <= i < devs.len() && peer_view(#[trigger] devs[i]) == v && spec_should_display_peer(
            devs[i].alias@,
            endpoint_ip(eps, devs[i].token@),
        )
}

/// `v` shows a found device that is displayed at the address it answered from.
pub open spec fn found_origin(ds: Seq<DiscoveredDevice>, v: PeerView) -> bool {
    exists|i: int|
        0 <= i < ds.len() && found_view(#[trigger] ds[i]) == v && spec_should_display_peer(
            ds[i].info.alias@,
            Some(ds[i].ip@),
        )
}

proof fn lemma_upsert_entries<V>(l: Seq<(Seq<char>, V)>, k: Seq<char>, v: V)
    ensures
        has_key(upsert(l, k, v), k),
        forall|k2: Seq<char>| has_key(l, k2) ==> #[trigger] has_key(upsert(l, k, v), k2),
        forall|i: int|
            0 <= i < upsert(l, k, v).len() ==> #[trigger] upsert(l, k, v)[i] == (k, v) || l.contains(
                upsert(l, k, v)[i],
            ),
{
    let u = upsert(l, k, v);
    if has_key(l, k) {
        let x = key_index(l, k);
        assert(u[x] == (k, v));
        assert forall|k2: Seq<char>| has_key(l, k2) implies #[trigger] has_key(u, k2) by {
            let j = choose|j: int| 0 <= j < l.len() && (#[trigger] l[j]).0 == k2;
            assert(u[j].0 == k2);
        }
        assert forall|i: int| 0 <= i < u.len() implies #[trigger] u[i] == (k, v) || l.contains(u[i]) by {
            if i != x {
                assert(u[i] == l[i]);
            }
        }
    } else {
        assert(u[l.len() as int] == (k, v));
        assert forall|k2: Seq<char>| has_key(l, k2) implies #[trigger] has_key(u, k2) by {
            let j = choose|j: int| 0 <= j < l.len() && (#[trigger] l[j]).0 == k2;
            assert(u[j] == l[j]);
        }
        assert forall|i: int| 0 <= i < u.len() implies #[trigger] u[i] == (k, v) || l.contains(u[i]) by {
            if i < l.len() {
                assert(u[i] == l[i]);
            }
        }
    }
}

proof fn lemma_kept_peers_shape(devs: Seq<PeerInfo>, eps: Seq<(Seq<char>, DeviceEndpoint)>)
    ensures
        unique_keys(kept_peers(Seq::empty(), devs, eps)),
        keyed_by_token(kept_peers(Seq::empty(), devs, eps)),
        forall|i: int|
            0 <= i < kept_peers(Seq::empty(), devs, eps).len() ==> listed_origin(
                devs,
                eps,
                (#[trigger] kept_peers(Seq::empty(), devs, eps)[i]).1,
            ),
    decreases devs.len(),
{
    let k = kept_peers(Seq::empty(), devs, eps);
    if devs.len() > 0 {
        let init = devs.drop_last();
        let p = devs.last();
        let prev = kept_peers(Seq::empty(), init, eps);
        lemma_kept_peers_shape(init, eps);
        assert forall|i: int| 0 <= i < prev.len() implies listed_origin(devs, eps, (#[trigger] prev[i]).1) by {
            let j = choose|j: int|
                0 <= j < init.len() && peer_view(#[trigger] init[j]) == prev[i].1 && spec_should_display_peer(
                    init[j].alias@,
                    endpoint_ip(eps, init[j].token@),
                );
            assert(devs[j] == init[j]);
        }
        if spec_should_display_peer(p.alias@, endpoint_ip(eps, p.token@)) {
            lemma_upsert_unique(prev, p.token@, peer_view(p));
            lemma_upsert_entries(prev, p.token@, peer_view(p));
            assert(devs[devs.len() - 1] == p);
            assert forall|i: int| 0 <= i < k.len() implies (#[trigger] k[i]).1.4 == k[i].0 && listed_origin(
                devs,
                eps,
                k[i].1,
            ) by {
                if k[i] != (p.token@, peer_view(p)) {
                    let j = choose|j: int| 0 <= j < prev.len() && prev[j] == k[i];
                    assert(prev[j].1.4 == prev[j].0);
                    assert(listed_origin(devs, eps, prev[j].1));
                }
            }
        }
    }
}

proof fn lemma_added_peers_shape(
    acc: Seq<(Seq<char>, PeerView)>,
    ds: Seq<DiscoveredDevice>,
    devs: Seq<PeerInfo>,
    eps: Seq<(Seq<char>, DeviceEndpoint)>,
)
    requires
        unique_keys(acc),
        keyed_by_token(acc),
        forall|i: int| 0 <= i < acc.len() ==> listed_origin(devs, eps, (#[trigger] acc[i]).1),
    ensures
        unique_keys(added_peers(acc, ds)),
        keyed_by_token(added_peers(acc, ds)),
        forall|i: int|
            0 <= i < added_peers(acc, ds).len() ==> listed_origin(devs, eps, (#[trigger] added_peers(acc, ds)[i]).1)
                || found_origin(ds, added_peers(acc, ds)[i].1),
        forall|j: int|
            0 <= j < ds.len() && spec_should_display_peer((#[trigger] ds[j]).info.alias@, Some(ds[j].ip@))
                ==> has_key(added_peers(acc, ds), found_view(ds[j]).4),
    decreases ds.len(),
{
    let a = added_peers(acc, ds);
    if ds.len() > 0 {
        let init = ds.drop_last();
        let d = ds.last();
        let prev = added_peers(acc, init);
        lemma_added_peers_shape(acc, init, devs, eps);
        assert forall|i: int| 0 <= i < prev.len() && found_origin(init, (#[trigger] prev[i]).1) implies found_origin(
            ds,
            prev[i].1,
        ) by {
            let j = choose|j: int|
                0 <= j < init.len() && found_view(#[trigger] init[j]) == prev[i].1 && spec_should_display_peer(
                    init[j].info.alias@,
                    Some(init[j].ip@),
                );
            assert(ds[j] == init[j]);
        }
        assert(ds[ds.len() - 1] == d);
        if spec_should_display_peer(d.info.alias@, Some(d.ip@)) {
            let fv = found_view(d);
            lemma_upsert_unique(prev, fv.4, fv);
            lemma_upsert_entries(prev, fv.4, fv);
            assert forall|i: int| 0 <= i < a.len() implies (#[trigger] a[i]).1.4 == a[i].0 && (listed_origin(
                devs,
                eps,
                a[i].1,
            ) || found_origin(ds, a[i].1)) by {
                if a[i] != (fv.4, fv) {
                    let j = choose|j: int| 0 <= j < prev.len() && prev[j] == a[i];
                    assert(prev[j].1.4 == prev[j].0);
                    assert(listed_origin(devs, eps, prev[j].1) || found_origin(init, prev[j].1));
                }
            }
            assert forall|j: int|
                0 <= j < ds.len() && spec_should_display_peer((#[trigger] ds[j]).info.alias@, Some(ds[j].ip@))
                    implies has_key(a, found_view(ds[j]).4) by {
                if j < init.len() {
                    assert(init[j] == ds[j]);
                    assert(has_key(prev, found_view(init[j]).4));
                }
            }
        } else {
            assert forall|j: int|
                0 <= j < ds.len() && spec_should_display_peer((#[trigger] ds[j]).info.alias@, Some(ds[j].ip@))
                    implies has_key(a, found_view(ds[j]).4) by {
                assert(init[j] == ds[j]);
            }
        }
    }
}

/// After a scan every found device has an endpoint filed under its token.
proof fn lemma_merged_endpoint_keys(eps: Seq<(Seq<char>, DeviceEndpoint)>, ds: Seq<DiscoveredDevice>)
    ensures
        forall|j: int|
            0 <= j < ds.len() ==> has_key(
                merged_endpoints(eps, ds),
                peer_token((#[trigger] ds[j]).info.token@, ds[j].ip@, ds[j].port),
            ),
    decreases ds.len(),
{
    if ds.len() > 0 {
        let init = ds.drop_last();
        let d = ds.last();
        lemma_merged_endpoint_keys(eps, init);
        let prev = merged_endpoints(eps, init);
        let ep = DeviceEndpoint { ip: d.ip, port: d.port, https: d.https };
        lemma_upsert_entries(prev, peer_token(d.info.token@, d.ip@, d.port), ep);
        assert forall|j: int| 0 <= j < ds.len() implies has_key(
            merged_endpoints(eps, ds),
            peer_token((#[trigger] ds[j]).info.token@, ds[j].ip@, ds[j].port),
        ) by {
            if j < init.len() {
                assert(init[j] == ds[j]);
                assert(has_key(prev, peer_token(init[j].info.token@, init[j].ip@, init[j].port)));
            } else {
                assert(ds[j] == d);
            }
        }
    }
}

/// `v` is the value of some entry.
pub open spec fn is_entry_value(entries: Seq<(Seq<char>, PeerView)>, v: PeerView) -> bool {
    exists|a: int| 0 <= a < entries.len() && (#[trigger] entries[a]).1 == v
}

/// A list with the same peers as a keyed list of distinct tokens: no token
/// twice, every peer is a value of the keyed list, and every key is listed.
proof fn lemma_listed_like_entries(rv: Seq<PeerView>, entries: Seq<(Seq<char>, PeerView)>)
    requires
        rv.to_multiset() == entry_values(entries).to_multiset(),
        unique_keys(entries),
        keyed_by_token(entries),
    ensures
        forall|i: int, j: int| 0 <= i < j < rv.len() ==> (#[trigger] rv[i]).4 != (#[trigger] rv[j]).4,
        forall|i: int| 0 <= i < rv.len() ==> is_entry_value(entries, #[trigger] rv[i]),
        forall|k: Seq<char>|
            #[trigger] has_key(entries, k) ==> exists|i: int| 0 <= i < rv.len() && (#[trigger] rv[i]).4 == k,
{
    broadcast use vstd::seq_lib::group_to_multiset_ensures;

    let t = entry_values(entries);
    assert forall|a: int, b: int| 0 <= a < t.len() && 0 <= b < t.len() && a != b implies t[a] != t[b] by {
        assert(t[a] == entries[a].1 && t[b] == entries[b].1);
        if a < b {
            assert(entries[a].0 != entries[b].0);
        } else {
            assert(entries[b].0 != entries[a].0);
        }
    }
    assert(t.no_duplicates());
    t.lemma_multiset_has_no_duplicates();
    assert forall|x: PeerView| rv.to_multiset().contains(x) implies rv.to_multiset().count(x) == 1 by {
        assert(t.to_multiset().contains(x));
    }
    rv.lemma_multiset_has_no_duplicates_conv();
    assert forall|i: int| 0 <= i < rv.len() implies is_entry_value(entries, #[trigger] rv[i]) by {
        assert(rv.contains(rv[i]));
        assert(rv.to_multiset().count(rv[i]) > 0);
        assert(t.contains(rv[i]));
        let a = choose|a: int| 0 <= a < t.len() && t[a] == rv[i];
        assert(entries[a].1 == t[a]);
        assert(0 <= a < entries.len() && entries[a].1 == rv[i]);
    }
    assert forall|i: int, j: int| 0 <= i < j < rv.len() implies (#[trigger] rv[i]).4 != (#[trigger] rv[j]).4 by {
        assert(rv.contains(rv[i]) && rv.contains(rv[j]));
        assert(rv.to_multiset().count(rv[i]) > 0 && rv.to_multiset().count(rv[j]) > 0);
        assert(t.contains(rv[i]) && t.contains(rv[j]));
        let a = choose|a: int| 0 <= a < t.len() && t[a] == rv[i];
        let b = choose|b: int| 0 <= b < t.len() && t[b] == rv[j];
        assert(entries[a].1 == t[a] && entries[b].1 == t[b]);
        if rv[i].4 == rv[j].4 {
            assert(entries[a].0 == entries[b].0);
            if a < b {
                assert(entries[a].0 != entries[b].0);
            } else if b < a {
                assert(entries[b].0 != entries[a].0);
            }
            assert(rv[i] == rv[j]);
        }
    }
    assert forall|k: Seq<char>| #[trigger] has_key(entries, k) implies exists|i: int|
        0 <= i < rv.len() && (#[trigger] rv[i]).4 == k by {
        let a = choose|a: int| 0 <= a < entries.len() && (#[trigger] entries[a]).0 == k;
        assert(t[a] == entries[a].1);
        assert(t.contains(t[a]));
        assert(t.to_multiset().count(t[a]) > 0);
        assert(rv.contains(t[a]));
        let i = choose|i: int| 0 <= i < rv.len() && rv[i] == t[a];
        assert(rv[i].4 == k);
    }
}

/// Sorts peers by alias, keeping the order of equal aliases.
fn sort_by_alias(items: Vec<PeerInfo>) -> (r: Vec<PeerInfo>)
    ensures
        peer_views(r@).to_multiset() == peer_views(items@).to_multiset(),
        sorted_by_alias(peer_views(r@)),
{
    broadcast use vstd::seq_lib::group_to_multiset_ensures;

    let ghost all = peer_views(items@);
    let mut rest = items;
    let mut sorted: Vec<PeerInfo> = Vec::new();
    let ghost mut taken: int = 0;
    while rest.len() > 0
        invariant
            0 <= taken <= all.len(),
            peer_views(rest@) == all.subrange(taken, all.len() as int),
            peer_views(sorted@).to_multiset() == all.subrange(0, taken).to_multiset(),
            sorted_by_alias(peer_views(sorted@)),
        decreases rest@.len(),
    {
        let ghost rv = peer_views(rest@);
        let e = rest.remove(0);
        proof {
            assert(rv[0] == peer_view(e));
            assert(peer_views(rest@) =~= rv.drop_first());
        }
        let mut j: usize = 0;
        while j < sorted.len() && !lex_less(
            chars_of(e.alias.as_str()).as_slice(),
            chars_of(sorted[j].alias.as_str()).as_slice(),
        )
            invariant
                0 <= j <= sorted@.len(),
                forall|k: int| 0 <= k < j ==> !lex_lt(e.alias@, (#[trigger] sorted@[k]).alias@),
            decreases sorted@.len() - j,
        {
            j = j + 1;
        }
        let ghost old_views = peer_views(sorted@);
        let ghost ev = peer_view(e);
        sorted.insert(j, e);
        proof {
            assert(peer_views(sorted@) =~= old_views.insert(j as int, ev));
            let nv = peer_views(sorted@);
            assert forall|p: int, q: int| 0 <= p < q < nv.len() implies !lex_lt(
                (#[trigger] nv[q]).0,
                (#[trigger] nv[p]).0,
            ) by {
                if q < j {
                    assert(nv[p] == old_views[p] && nv[q] == old_views[q]);
                } else if q == j {
                    assert(nv[p] == old_views[p]);
                    assert(old_views[p].0 == sorted@[p].alias@);
                } else if p == j {
                    assert(nv[q] == old_views[q - 1]);
                    if j < old_views.len() {
                        assert(lex_lt(ev.0, old_views[j as int].0));
                        if q - 1 > j {
                            assert(!lex_lt(old_views[q - 1].0, old_views[j as int].0));
                            crate::text::lemma_lex_lt_total(old_views[q - 1].0, old_views[j as int].0);
                            if lex_lt(old_views[q - 1].0, ev.0) {
                                crate::text::lemma_lex_lt_transitive(old_views[q - 1].0, ev.0, old_views[j as int].0);
                                crate::text::lemma_lex_lt_irreflexive(old_views[j as int].0);
                            }
                        } else {
                            crate::text::lemma_lex_lt_total(ev.0, old_views[q - 1].0);
                            if lex_lt(old_views[q - 1].0, ev.0) {
                                crate::text::lemma_lex_lt_transitive(ev.0, old_views[q - 1].0, ev.0);
                                crate::text::lemma_lex_lt_irreflexive(ev.0);
                            }
                        }
                    }
                } else if p < j {
                    assert(nv[p] == old_views[p] && nv[q] == old_views[q - 1]);
                } else {
                    assert(nv[p] == old_views[p - 1] && nv[q] == old_views[q - 1]);
                }
            }
            assert(all.subrange(0, taken + 1) == all.subrange(0, taken).push(ev));
            vstd::seq_lib::to_multiset_insert(old_views, j as int, ev);
            vstd::seq_lib::to_multiset_build(all.subrange(0, taken), ev);
            taken = taken + 1;
        }
    }
    proof {
        assert(all.subrange(0, all.len() as int) == all);
    }
    sorted
}


/// Merges a scan into the list: the found devices' endpoints are filed, the
/// listed peers that still show and the found ones that show are kept, one
/// per token (a found device replacing a listed one), and the list is sorted
/// by alias.
pub fn merge_scan(
    devices: &Vec<PeerInfo>,
    endpoints: &mut Vec<(String, DeviceEndpoint)>,
    found: &Vec<DiscoveredDevice>,
) -> (r: Vec<PeerInfo>)
    requires
        unique_keys(endpoint_entries(old(endpoints)@)),
    ensures
        endpoint_entries(final(endpoints)@) == merged_endpoints(endpoint_entries(old(endpoints)@), found@),
        unique_keys(endpoint_entries(final(endpoints)@)),
        peer_views(r@).to_multiset() == entry_values(
            scan_entries(devices@, endpoint_entries(old(endpoints)@), found@),
        ).to_multiset(),
        sorted_by_alias(peer_views(r@)),
        forall|i: int, j: int| 0 <= i < j < r@.len() ==> (#[trigger] r@[i]).token@ != (#[trigger] r@[j]).token@,
        forall|i: int|
            0 <= i < r@.len() ==> listed_origin(
                devices@,
                endpoint_entries(final(endpoints)@),
                peer_view(#[trigger] r@[i]),
            ) || found_origin(found@, peer_view(r@[i])),
        forall|j: int|
            0 <= j < found@.len() && spec_should_display_peer(
                (#[trigger] found@[j]).info.alias@,
                Some(found@[j].ip@),
            ) ==> exists|i: int|
                0 <= i < r@.len() && (#[trigger] r@[i]).token@ == peer_token(
                    found@[j].info.token@,
                    found@[j].ip@,
                    found@[j].port,
                ),
        forall|j: int|
            0 <= j < found@.len() ==> has_key(
                endpoint_entries(final(endpoints)@),
                peer_token((#[trigger] found@[j]).info.token@, found@[j].ip@, found@[j].port),
            ),
{
    proof {
        lemma_merged_endpoint_keys(endpoint_entries(endpoints@), found@);
    }
    let ghost e0 = endpoint_entries(endpoints@);
    merge_endpoints(endpoints, found);
    let ghost eps = endpoint_entries(endpoints@);
    let mut kept: Vec<(String, PeerInfo)> = Vec::new();
    let mut i: usize = 0;
    while i < devices.len()
        invariant
            0 <= i <= devices@.len(),
            eps == endpoint_entries(endpoints@),
            unique_keys(eps),
            peer_entries(kept@) == kept_peers(Seq::empty(), devices@.subrange(0, i as int), eps),
            unique_keys(peer_entries(kept@)),
        decreases devices@.len() - i,
    {
        let dev = &devices[i];
        proof {
            assert(devices@.subrange(0, i + 1).drop_last() == devices@.subrange(0, i as int));
            assert(devices@.subrange(0, i + 1).last() == *dev);
        }
        let ip = endpoint_ip_of(endpoints, dev.token.as_str());
        let ip_ref: Option<&str> = match &ip {
            Some(s) => Some(s.as_str()),
            None => None,
        };
        if should_display_peer(dev, ip_ref) {
            upsert_peer(&mut kept, copy_peer(dev));
        }
        i = i + 1;
    }
    assert(devices@.subrange(0, devices@.len() as int) == devices@);
    let ghost base = peer_entries(kept@);
    let mut k: usize = 0;
    while k < found.len()
        invariant
            0 <= k <= found@.len(),
            peer_entries(kept@) == added_peers(base, found@.subrange(0, k as int)),
            unique_keys(peer_entries(kept@)),
        decreases found@.len() - k,
    {
        let d = &found[k];
        proof {
            assert(found@.subrange(0, k + 1).drop_last() == found@.subrange(0, k as int));
            assert(found@.subrange(0, k + 1).last() == *d);
        }
        if should_display_peer(&d.info, Some(d.ip.as_str())) {
            let token = crate::peer::normalized_peer_token(&d.info, d.ip.as_str(), d.port);
            let mut shown = copy_peer(&d.info);
            shown.token = token;
            assert(peer_view(shown) == found_view(*d));
            upsert_peer(&mut kept, shown);
        }
        k = k + 1;
    }
    assert(found@.subrange(0, found@.len() as int) == found@);
    let ghost merged_entries = peer_entries(kept@);
    let ghost target = entry_values(peer_entries(kept@));
    let mut values: Vec<PeerInfo> = Vec::new();
    while kept.len() > 0
        invariant
            entry_values(peer_entries(kept@)) == target.subrange(values@.len() as int, target.len() as int),
            peer_views(values@) == target.subrange(0, values@.len() as int),
            values@.len() <= target.len(),
        decreases kept@.len(),
    {
        let ghost kv = entry_values(peer_entries(kept@));
        let (_, p) = kept.remove(0);
        proof {
            assert(kv[0] == peer_view(p));
            assert(entry_values(peer_entries(kept@)) =~= kv.drop_first());
        }
        let ghost before = peer_views(values@);
        values.push(p);
        assert(peer_views(values@) =~= before.push(peer_view(p)));
        assert(peer_views(values@) =~= target.subrange(0, values@.len() as int));
    }
    assert(peer_views(values@) =~= target);
    let r = sort_by_alias(values);
    proof {
        let sc = scan_entries(devices@, e0, found@);
        lemma_kept_peers_shape(devices@, eps);
        lemma_added_peers_shape(kept_peers(Seq::empty(), devices@, eps), found@, devices@, eps);
        assert(eps == merged_endpoints(e0, found@));
        assert(base == kept_peers(Seq::empty(), devices@, eps));
        assert(merged_entries == added_peers(base, found@));
        assert(sc == merged_entries);
        let rv = peer_views(r@);
        lemma_listed_like_entries(rv, sc);
        assert forall|i: int, j: int| 0 <= i < j < r@.len() implies (#[trigger] r@[i]).token@ != (
        #[trigger] r@[j]).token@ by {
            assert(rv[i] == peer_view(r@[i]) && rv[j] == peer_view(r@[j]));
            assert(rv[i].4 != rv[j].4);
        }
        assert forall|i: int| 0 <= i < r@.len() implies listed_origin(
            devices@,
            eps,
            peer_view(#[trigger] r@[i]),
        ) || found_origin(found@, peer_view(r@[i])) by {
            assert(rv[i] == peer_view(r@[i]));
            assert(is_entry_value(sc, rv[i]));
            let a = choose|a: int| 0 <= a < sc.len() && (#[trigger] sc[a]).1 == rv[i];
            assert(listed_origin(devices@, eps, sc[a].1) || found_origin(found@, sc[a].1));
        }
        assert forall|j: int|
            0 <= j < found@.len() && spec_should_display_peer(
                (#[trigger] found@[j]).info.alias@,
                Some(found@[j].ip@),
            ) implies exists|i: int|
                0 <= i < r@.len() && (#[trigger] r@[i]).token@ == peer_token(
                    found@[j].info.token@,
                    found@[j].ip@,
                    found@[j].port,
                ) by {
            let k = found_view(found@[j]).4;
            assert(has_key(sc, k));
            let i = choose|i: int| 0 <= i < rv.len() && (#[trigger] rv[i]).4 == k;
            assert(rv[i] == peer_view(r@[i]));
        }
    }
    r
}

/// What a finished scan leaves: the endpoints of the found devices filed by
/// token, and the list `r` holding, once per token and sorted by alias, the
/// listed peers still displayed at their filed address and the found devices
/// displayed at the address they answered from.
pub open spec fn scan_merged(
    devices: Seq<PeerInfo>,
    before: Seq<(Seq<char>, DeviceEndpoint)>,
    after: Seq<(Seq<char>, DeviceEndpoint)>,
    found: Seq<DiscoveredDevice>,
    r: Seq<PeerInfo>,
) -> bool {
    &&& after == merged_endpoints(before, found)
    &&& unique_keys(after)
    &&& peer_views(r).to_multiset() == entry_values(scan_entries(devices, before, found)).to_multiset()
    &&& sorted_by_alias(peer_views(r))
    &&& forall|i: int, j: int| 0 <= i < j < r.len() ==> (#[trigger] r[i]).token@ != (#[trigger] r[j]).token@
    &&& forall|i: int|
        0 <= i < r.len() ==> listed_origin(devices, after, peer_view(#[trigger] r[i])) || found_origin(
            found,
            peer_view(r[i]),
        )
    &&& forall|j: int|
        0 <= j < found.len() && spec_should_display_peer((#[trigger] found[j]).info.alias@, Some(found[j].ip@))
            ==> exists|i: int|
            0 <= i < r.len() && (#[trigger] r[i]).token@ == peer_token(found[j].info.token@, found[j].ip@, found[j].port)
    &&& forall|j: int|
        0 <= j < found.len() ==> has_key(after, peer_token((#[trigger] found[j]).info.token@, found[j].ip@, found[j].port))
}

proof fn lemma_lookup_upsert<V>(l: Seq<(Seq<char>, V)>, k: Seq<char>, v: V, k2: Seq<char>)
    requires
        unique_keys(l),
    ensures
        lookup(upsert(l, k, v), k2) == (if k2 == k {
            Some(v)
        } else {
            lookup(l, k2)
        }),
{
    let u = upsert(l, k, v);
    lemma_upsert_unique(l, k, v);
    lemma_upsert_entries(l, k, v);
    if has_key(l, k) {
        let x = key_index(l, k);
        if k2 == k {
            lemma_key_index_unique(u, k, x);
        } else if has_key(l, k2) {
            let y = key_index(l, k2);
            assert(u[y] == l[y]);
            lemma_key_index_unique(u, k2, y);
        } else {
            assert(!has_key(u, k2)) by {
                if has_key(u, k2) {
                    let j = choose|j: int| 0 <= j < u.len() && (#[trigger] u[j]).0 == k2;
                    assert(l[j].0 == k2);
                }
            }
        }
    } else {
        let x = l.len() as int;
        if k2 == k {
            assert(u[x] == (k, v));
            lemma_key_index_unique(u, k, x);
        } else if has_key(l, k2) {
            let y = key_index(l, k2);
            assert(u[y] == l[y]);
            lemma_key_index_unique(u, k2, y);
        } else {
            assert(!has_key(u, k2)) by {
                if has_key(u, k2) {
                    let j = choose|j: int| 0 <= j < u.len() && (#[trigger] u[j]).0 == k2;
                    assert(j < l.len());
                    assert(l[j].0 == k2);
                }
            }
        }
    }
}

/// Found devices that share a token answered from the same address.
pub open spec fn one_address_per_token(found: Seq<DiscoveredDevice>) -> bool {
    forall|i: int, j: int|
        0 <= i < found.len() && 0 <= j < found.len() && peer_token(
            (#[trigger] found[i]).info.token@,
            found[i].ip@,
            found[i].port,
        ) == peer_token((#[trigger] found[j]).info.token@, found[j].ip@, found[j].port) ==> found[i].ip@
            == found[j].ip@
}

proof fn lemma_merged_endpoint_ip(before: Seq<(Seq<char>, DeviceEndpoint)>, found: Seq<DiscoveredDevice>, j: int)
    requires
        unique_keys(before),
        one_address_per_token(found),
        0 <= j < found.len(),
    ensures
        unique_keys(merged_endpoints(before, found)),
        endpoint_ip(
            merged_endpoints(before, found),
            peer_token(found[j].info.token@, found[j].ip@, found[j].port),
        ) == Some(found[j].ip@),
    decreases found.len(),
{
    let init = found.drop_last();
    let d = found.last();
    let prev = merged_endpoints(before, init);
    let tok = peer_token(d.info.token@, d.ip@, d.port);
    let ep = DeviceEndpoint { ip: d.ip, port: d.port, https: d.https };
    let kj = peer_token(found[j].info.token@, found[j].ip@, found[j].port);
    assert(found[found.len() - 1] == d);
    if j < init.len() {
        assert(init[j] == found[j]);
        assert forall|a: int, b: int|
            0 <= a < init.len() && 0 <= b < init.len() && peer_token(
                (#[trigger] init[a]).info.token@,
                init[a].ip@,
                init[a].port,
            ) == peer_token((#[trigger] init[b]).info.token@, init[b].ip@, init[b].port) implies init[a].ip@
                == init[b].ip@ by {
            assert(init[a] == found[a] && init[b] == found[b]);
        }
        lemma_merged_endpoint_ip(before, init, j);
    } else {
        if init.len() > 0 {
            assert(one_address_per_token(init)) by {
                assert forall|a: int, b: int|
                    0 <= a < init.len() && 0 <= b < init.len() && peer_token(
                        (#[trigger] init[a]).info.token@,
                        init[a].ip@,
                        init[a].port,
                    ) == peer_token((#[trigger] init[b]).info.token@, init[b].ip@, init[b].port) implies init[a].ip@
                        == init[b].ip@ by {
                    assert(init[a] == found[a] && init[b] == found[b]);
                }
            }
            lemma_merged_endpoint_ip(before, init, 0);
        }
    }
    assert(unique_keys(prev));
    lemma_upsert_unique(prev, tok, ep);
    lemma_lookup_upsert(prev, tok, ep, kj);
    if kj == tok {
        assert(found[j].ip@ == d.ip@);
    }
}

/// After a scan, every listed device passes the display check at the
/// address filed for its token, when found devices that share a token
/// answered from the same address.
pub proof fn lemma_scan_list_displayed(
    devices: Seq<PeerInfo>,
    before: Seq<(Seq<char>, DeviceEndpoint)>,
    after: Seq<(Seq<char>, DeviceEndpoint)>,
    found: Seq<DiscoveredDevice>,
    r: Seq<PeerInfo>,
)
    requires
        unique_keys(before),
        one_address_per_token(found),
        scan_merged(devices, before, after, found, r),
    ensures
        forall|i: int|
            0 <= i < r.len() ==> spec_should_display_peer(
                (#[trigger] r[i]).alias@,
                endpoint_ip(after, r[i].token@),
            ),
{
    assert forall|i: int| 0 <= i < r.len() implies spec_should_display_peer(
        (#[trigger] r[i]).alias@,
        endpoint_ip(after, r[i].token@),
    ) by {
        let v = peer_view(r[i]);
        if listed_origin(devices, after, v) {
            let k = choose|k: int|
                0 <= k < devices.len() && peer_view(#[trigger] devices[k]) == v && spec_should_display_peer(
                    devices[k].alias@,
                    endpoint_ip(after, devices[k].token@),
                );
            assert(devices[k].alias@ == r[i].alias@ && devices[k].token@ == r[i].token@);
        } else {
            assert(found_origin(found, v));
            let j = choose|j: int|
                0 <= j < found.len() && found_view(#[trigger] found[j]) == v && spec_should_display_peer(
                    found[j].info.alias@,
                    Some(found[j].ip@),
                );
            lemma_merged_endpoint_ip(before, found, j);
            assert(r[i].token@ == peer_token(found[j].info.token@, found[j].ip@, found[j].port));
        }
    }
}

/// Completes a scan that found `found`: merges it into the list and the
/// endpoints, and ends the scan (no scan runs; whether one ran is kept).
pub fn complete_scan(
    flags: &mut ScanFlags,
    devices: &Vec<PeerInfo>,
    endpoints: &mut Vec<(String, DeviceEndpoint)>,
    found: &Vec<DiscoveredDevice>,
) -> (r: Vec<PeerInfo>)
    requires
        unique_keys(endpoint_entries(old(endpoints)@)),
    ensures
        scan_merged(
            devices@,
            endpoint_entries(old(endpoints)@),
            endpoint_entries(final(endpoints)@),
            found@,
            r@,
        ),
        !final(flags).scanning,
        final(flags).has_scanned_once == old(flags).has_scanned_once,
{
    let r = merge_scan(devices, endpoints, found);
    finish_scan(flags);
    r
}

/// Fills the list from the devices kept from earlier scans: nothing changes
/// when none are kept; otherwise they are merged as a scan is.
pub fn hydrate_from_cache(
    devices: Vec<PeerInfo>,
    endpoints: &mut Vec<(String, DeviceEndpoint)>,
    cached: &Vec<DiscoveredDevice>,
) -> (r: Vec<PeerInfo>)
    requires
        unique_keys(endpoint_entries(old(endpoints)@)),
    ensures
        cached@.len() == 0 ==> r == devices && *final(endpoints) == *old(endpoints),
        cached@.len() > 0 ==> {
            &&& endpoint_entries(final(endpoints)@) == merged_endpoints(
                endpoint_entries(old(endpoints)@),
                cached@,
            )
            &&& peer_views(r@).to_multiset() == entry_values(
                scan_entries(devices@, endpoint_entries(old(endpoints)@), cached@),
            ).to_multiset()
            &&& sorted_by_alias(peer_views(r@))
        },
        unique_keys(endpoint_entries(final(endpoints)@)),
{
    if cached.len() == 0 {
        return devices;
    }
    merge_scan(&devices, endpoints, cached)
}

/// A scan starts once by itself: when none ran yet, none is running and no
/// device is listed.
pub fn should_start_first_scan(has_scanned_once: bool, scanning: bool, listed: usize) -> (b: bool)
    ensures
        b == (!has_scanned_once && !scanning && listed == 0),
{
    !has_scanned_once && !scanning && listed == 0
}


/// What a scan that starts does first: whether the lists are emptied (a
/// forced refresh), and how long it waits for answers, in milliseconds.
pub struct ScanStart {
    pub clear_lists: bool,
    pub timeout_ms: u64,
}

/// Starts a scan: none while one runs; a forced refresh empties the lists
/// first; the wait is the set timeout, but at least 200 ms.
pub fn scan_start(scanning: bool, force_refresh: bool, discovery_timeout: u32) -> (r: Option<ScanStart>)
    ensures
        scanning <==> r is None,
        r matches Some(st) ==> st.clear_lists == force_refresh && st.timeout_ms == (if discovery_timeout
            < 200 {
            200
        } else {
            discovery_timeout as int
        }),
{
    if scanning {
        return None;
    }
    let t: u32 = if discovery_timeout < 200 {
        200
    } else {
        discovery_timeout
    };
    Some(ScanStart { clear_lists: force_refresh, timeout_ms: t as u64 })
}

/// The send tab's scan flags: whether a scan runs, and whether one ever ran.
#[derive(Clone, Copy, Debug, PartialEq, Eq, Structural)]
pub struct ScanFlags {
    pub scanning: bool,
    pub has_scanned_once: bool,
}

/// Starts a scan from the tab's flags: refused (flags unchanged) while one
/// runs; otherwise the scan counts as started and as having run once.
pub fn start_scan(flags: &mut ScanFlags, force_refresh: bool, discovery_timeout: u32) -> (r: Option<ScanStart>)
    ensures
        old(flags).scanning <==> r is None,
        r is None ==> *final(flags) == *old(flags),
        r is Some ==> final(flags).scanning && final(flags).has_scanned_once,
        r matches Some(st) ==> st.clear_lists == force_refresh && st.timeout_ms == (if discovery_timeout
            < 200 {
            200
        } else {
            discovery_timeout as int
        }),
{
    let r = scan_start(flags.scanning, force_refresh, discovery_timeout);
    if r.is_some() {
        flags.has_scanned_once = true;
        flags.scanning = true;
    }
    r
}

/// Ends a scan once its results were merged: no scan runs any more, and the
/// tab keeps knowing that one ran.
pub fn finish_scan(flags: &mut ScanFlags)
    ensures
        !final(flags).scanning,
        final(flags).has_scanned_once == old(flags).has_scanned_once,
{
    flags.scanning = false;
}

/// The protocol badge of a device row.
pub fn protocol_badge(endpoint: Option<&DeviceEndpoint>) -> (s: &'static str)
    ensures
        s@ == match endpoint {
            Some(e) => if e.https {
                "LAN • HTTPS"@
            } else {
                "LAN • HTTP"@
            },
            None => "WebRTC"@,
        },
{
    match endpoint {
        Some(e) => if e.https {
            "LAN • HTTPS"
        } else {
            "LAN • HTTP"
        },
        None => "WebRTC",
    }
}

/// The name a device row shows: the favorite's alias when it is a favorite
/// with a non-blank alias, else the device's own.
pub fn row_name(device_alias: &str, favorite_alias: Option<&str>) -> (s: String)
    ensures
        s@ == match favorite_alias {
            Some(a) => if crate::text::is_blank(a@) {
                device_alias@
            } else {
                a@
            },
            None => device_alias@,
        },
{
    match favorite_alias {
        Some(a) => if crate::text::is_blank_str(a) {
            device_alias.to_owned()
        } else {
            a.to_owned()
        },
        None => device_alias.to_owned(),
    }
}

/// What tapping a device row does.
#[derive(Clone, Debug)]
pub enum RowTap {
    /// The tap only ends a tap on the row's favorite button.
    Swallowed,
    /// Nothing is selected yet.
    Notice(String),
    /// Send to where the device was reached.
    SendTo(String, u16),
    /// The device's address is unknown: ask for one.
    AskAddress,
}

pub fn row_tap(suppressed: bool, has_selection: bool, endpoint: Option<&DeviceEndpoint>) -> (r: RowTap)
    ensures
        suppressed ==> r is Swallowed,
        !suppressed && !has_selection ==> (r matches RowTap::Notice(m) && m@
            == "请先选择要发送的文件或文本"@),
        !suppressed && has_selection ==> match endpoint {
            Some(e) => (r matches RowTap::SendTo(ip, port) && ip == e.ip && port == e.port),
            None => r is AskAddress,
        },
{
    if suppressed {
        return RowTap::Swallowed;
    }
    if !has_selection {
        return RowTap::Notice("请先选择要发送的文件或文本".to_owned());
    }
    match endpoint {
        Some(e) => RowTap::SendTo(e.ip.clone(), e.port),
        None => RowTap::AskAddress,
    }
}

/// What tapping a row's favorite button does.
#[derive(Clone, Debug)]
pub enum FavoriteTap {
    /// Ask before removing the favorite shown under this name.
    ConfirmRemove { token: String, alias: String },
    /// The device cannot be kept without an address.
    Notice(String),
    /// Open the favorite form filled with the device.
    Edit(crate::favorites::FavoriteDevice),
}

pub fn favorite_tap(
    token: &str,
    device_alias: &str,
    is_favorite: bool,
    favorite_alias: Option<&str>,
    endpoint: Option<&DeviceEndpoint>,
) -> (r: FavoriteTap)
    ensures
        is_favorite ==> (r matches FavoriteTap::ConfirmRemove { token: t, alias: a } && t@
            == token@ && a@ == match favorite_alias {
            Some(f) => f@,
            None => device_alias@,
        }),
        !is_favorite && endpoint is None ==> (r matches FavoriteTap::Notice(m) && m@
            == "当前设备地址不可用，暂时无法添加到收藏夹。"@),
        !is_favorite && endpoint is Some ==> (r matches FavoriteTap::Edit(f) && f.token@ == token@
            && f.alias@ == device_alias@ && f.ip == endpoint->0.ip && f.port == endpoint->0.port
            && f.https == endpoint->0.https && !f.custom_alias),
{
    if is_favorite {
        let alias = match favorite_alias {
            Some(f) => f.to_owned(),
            None => device_alias.to_owned(),
        };
        return FavoriteTap::ConfirmRemove { token: token.to_owned(), alias };
    }
    match endpoint {
        None => FavoriteTap::Notice("当前设备地址不可用，暂时无法添加到收藏夹。".to_owned()),
        Some(e) => FavoriteTap::Edit(
            crate::favorites::FavoriteDevice {
                token: token.to_owned(),
                alias: device_alias.to_owned(),
                ip: e.ip.clone(),
                port: e.port,
                https: e.https,
                custom_alias: false,
            },
        ),
    }
}

/// The counters of the selection on the send tab.
pub fn selected_count_text(count: usize, compact: bool) -> (s: String)
    ensures
        s@ == crate::fmt::decimal(count as nat) + (if compact {
            " 个文件"@
        } else {
            " 个文件已选择"@
        }),
{
    let digits = crate::fmt::decimal_chars(count as u64);
    let mut s = crate::text::string_of(digits.as_slice());
    if compact {
        s.append(" 个文件");
    } else {
        s.append(" 个文件已选择");
    }
    s
}

/// The troubleshooting hint of the send tab.
pub fn troubleshoot_notice() -> (s: &'static str)
    ensures
        s@ == "请确认目标设备与本机在同一 Wi-Fi 网络。"@,
{
    "请确认目标设备与本机在同一 Wi-Fi 网络。"
}

} // verus!
