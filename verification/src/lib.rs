//! Core logic of the NearSend file-sharing client: layout selection, text
//! handling, network filters, history presentation, transfer decisions and
//! share links, each stated and proved with Verus.

pub mod changelog;
pub mod favorites;
pub mod clock;
pub mod fmt;
pub mod history;
pub mod ids;
pub mod incoming;
pub mod layout;
pub mod licenses;
pub mod modes;
pub mod nav;
pub mod nearby;
pub mod net;
pub mod peer;
pub mod progress;
pub mod qr;
pub mod receive;
pub mod safe_area;
pub mod selection;
pub mod send;
pub mod send_flow;
pub mod server;
pub mod settings;
pub mod share;
pub mod text;
