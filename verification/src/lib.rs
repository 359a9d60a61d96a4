//! The logic of the Internet Identity test app canister: a one-room chat whose
//! membership is capped with eviction of the quietest member, and the HTTP
//! side that serves the certified `.well-known` assets.
use vstd::prelude::*;

pub mod assets;
pub mod assets_laws;
pub mod chat;
pub mod chat_laws;
pub mod http;
pub mod http_laws;
pub mod principal;
pub mod text;

verus! {

} // verus!
