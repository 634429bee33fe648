pub mod order;
pub mod shutdown;
pub mod wait;
