pub mod config;
pub mod cores;
pub mod daemon;
pub mod detector;
pub mod sampler;
pub mod scheduler;
