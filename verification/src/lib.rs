pub mod auth;
pub mod config;
pub mod constant;
pub mod json;
pub mod quotation;
pub mod text;
pub mod websocket;
pub mod zmq;
