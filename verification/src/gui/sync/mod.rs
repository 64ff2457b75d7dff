pub mod thread_connection;
pub mod thread_event;
