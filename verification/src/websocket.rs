pub mod client;
pub mod handler;
pub mod ws_orderbook_total;
