pub mod command;
pub mod publisher;
pub mod subscriber;
