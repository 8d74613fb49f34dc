//! Login protection for a game server: rate limiting, proxy forwarding, texture checks,
//! remote console sessions and the encryption key store.

pub mod authentication;
pub mod bungeecord;
pub mod callback;
pub mod clock;
pub mod decryption_laws;
pub mod digest_laws;
pub mod ip;
mod ip_map;
pub mod key_store;
pub mod login_laws;
pub mod outside;
pub mod profile;
pub mod proxy_laws;
pub mod rate_limiter;
pub mod rate_limiter_call_laws;
pub mod rate_limiter_laws;
pub mod rcon;
pub mod rcon_client;
pub mod rcon_laws;
pub mod rcon_step_laws;
pub mod service_laws;
pub mod text;
pub mod text_laws;
pub mod texture_laws;
