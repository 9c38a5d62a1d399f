pub mod user;
pub mod auth;
pub mod board;
pub mod column;
pub mod item;
pub mod get_item_metrics_query;
