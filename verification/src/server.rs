//! The receive server as the settings see it: this device's announced
//! identity, whether the server runs, and the refresh indicator.

use vstd::prelude::*;
use crate::ids::{is_uuid_text, random_uuid_text};
use crate::peer::{
    device_model_text, normalized_device_model, parse_device_type, spec_parse_device_type, PeerInfo,
};

verus! {

/// The protocol version this device announces.
pub open spec fn announced_version() -> Seq<char> {
    "2.1"@
}

/// The identity this device announces: its alias, version 2.1, the model and
/// type of its settings, and its certificate fingerprint as token (a random
/// one when it has no certificate).
pub fn own_client_info(alias: &str, model_setting: &str, type_setting: &str, fingerprint: Option<String>) -> (r:
    PeerInfo)
    ensures
        r.alias@ == alias@,
        r.version@ == announced_version(),
        r.device_model is Some && r.device_model->0@ == device_model_text(model_setting@),
        r.device_type == spec_parse_device_type(type_setting@),
        match fingerprint {
            Some(f) => r.token == f,
            None => is_uuid_text(r.token@),
        },
{
    let token = match fingerprint {
        Some(f) => f,
        None => random_uuid_text(),
    };
    PeerInfo {
        alias: alias.to_owned(),
        version: "2.1".to_owned(),
        device_model: normalized_device_model(model_setting),
        device_type: parse_device_type(type_setting),
        token,
    }
}

/// The identity after the settings changed: an existing one keeps its
/// version and token and takes the new alias, model and type; without one a
/// fresh identity is made with the fallback token.
pub fn refresh_client_info(
    existing: Option<PeerInfo>,
    alias: &str,
    model_setting: &str,
    type_setting: &str,
    fallback_token: String,
) -> (r: PeerInfo)
    ensures
        r.alias@ == alias@,
        r.device_model is Some && r.device_model->0@ == device_model_text(model_setting@),
        r.device_type == spec_parse_device_type(type_setting@),
        match existing {
            Some(e) => r.version == e.version && r.token == e.token,
            None => r.version@ == announced_version() && r.token == fallback_token,
        },
{
    match existing {
        Some(e) => PeerInfo {
            alias: alias.to_owned(),
            version: e.version,
            device_model: normalized_device_model(model_setting),
            device_type: parse_device_type(type_setting),
            token: e.token,
        },
        None => own_client_info(alias, model_setting, type_setting, Some(fallback_token)),
    }
}

/// Whether the receive server runs, and whether the user paused it.
#[derive(Clone, Copy, Debug, PartialEq, Eq, Structural)]
pub struct ServerState {
    pub running: bool,
    pub paused: bool,
}

impl ServerState {
    /// After a start attempt: a started server runs and is no longer paused;
    /// a failed start leaves it stopped.
    pub fn after_start(self, started: bool) -> (r: Self)
        ensures
            started ==> r.running && !r.paused,
            !started ==> !r.running && r.paused == self.paused,
    {
        if started {
            ServerState { running: true, paused: false }
        } else {
            ServerState { running: false, paused: self.paused }
        }
    }

    /// After the server was stopped.
    pub fn after_stop(self) -> (r: Self)
        ensures
            !r.running && r.paused == self.paused,
    {
        ServerState { running: false, paused: self.paused }
    }

    /// After the user paused the server.
    pub fn after_pause(self) -> (r: Self)
        ensures
            !r.running && r.paused,
    {
        ServerState { running: false, paused: true }
    }
}

/// The refresh indicator: shown while the latest refresh is under way.
#[derive(Clone, Copy, Debug, PartialEq, Eq, Structural)]
pub struct RefreshFeedback {
    pub refreshing: bool,
    pub op_id: u64,
}

pub open spec fn next_op_id(id: u64) -> u64 {
    if id == u64::MAX {
        0
    } else {
        (id + 1) as u64
    }
}

/// The indicator once a refresh started: on, under the next number.
pub open spec fn started(r: RefreshFeedback) -> RefreshFeedback {
    RefreshFeedback { refreshing: true, op_id: next_op_id(r.op_id) }
}

/// The indicator once refresh `id` ended: off when `id` is the latest one,
/// else unchanged.
pub open spec fn finished(r: RefreshFeedback, id: u64) -> RefreshFeedback {
    if id == r.op_id {
        RefreshFeedback { refreshing: false, op_id: r.op_id }
    } else {
        r
    }
}

impl RefreshFeedback {
    /// Starts a refresh and gives its number (numbers wrap around).
    pub fn start(&mut self) -> (id: u64)
        ensures
            *final(self) == started(*old(self)),
            id == final(self).op_id,
    {
        self.refreshing = true;
        self.op_id = self.op_id.wrapping_add(1);
        self.op_id
    }

    /// Ends refresh `id`.
    pub fn finish(&mut self, id: u64)
        ensures
            *final(self) == finished(*old(self), id),
    {
        if self.op_id == id {
            self.refreshing = false;
        }
    }
}

/// The end of the latest refresh hides the indicator; the end of a refresh
/// that a newer one replaced leaves it on.
pub proof fn lemma_only_latest_refresh_hides_indicator(r: RefreshFeedback)
    ensures
        !finished(started(r), started(r).op_id).refreshing,
        finished(started(started(r)), started(r).op_id).refreshing,
{
}

} // verus!
