//! Decision logic of a single-upstream HTTPS gateway: who may pass, what is
//! logged, and what the client is answered.

pub mod addr;
pub mod config;
pub mod gate;
pub mod observer;
pub mod pipeline;
pub mod text;

pub use gate::check_ip_whitelist;
pub use observer::log_traffic;
