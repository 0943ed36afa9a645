//! Chat-room state, session bookkeeping and message fan-out for a small chat
//! server, with the behaviour of every function stated as a contract.

pub mod api;
pub mod chat;
pub mod codec;
pub mod data;
pub mod email;
pub mod flows;
pub mod hub;
pub mod icon;
pub mod ident;
pub mod logging;
pub mod routes;
pub mod server;
pub mod session;
pub mod socket;
pub mod text;
pub mod time;
pub mod user;
pub mod validate;
