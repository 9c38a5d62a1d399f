pub mod board_role;
pub mod board_member;
pub mod column_type;
pub mod item_priority;
pub mod item_history;
pub mod item;
pub mod board_column;
pub mod board;
pub mod user;
