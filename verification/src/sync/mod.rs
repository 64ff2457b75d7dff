pub mod thread_event;
pub mod thread_info_connection;
pub mod thread_info_sender;
