pub mod events;
pub mod forms;
pub mod user_sessions;
pub mod users;
pub mod years;
