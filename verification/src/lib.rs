pub mod command;
pub mod dates;
pub mod ids;
pub mod lang;
pub mod laws;
pub mod listing;
pub mod messages;
pub mod number;
pub mod order;
pub mod session;
pub mod store;
pub mod task;
pub mod text;
pub mod time;
