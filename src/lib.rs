pub mod connection;
pub mod connection_errors;
pub mod thread_pool;
pub mod thread_pool_errors;
pub mod worker;
