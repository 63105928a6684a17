pub mod cache;
pub mod oauth;
pub mod ws_auth;
