pub mod calculator;
pub mod messages;
pub mod models;
