pub mod chain;
pub mod watch;
