pub mod sqlite;
pub mod users;
