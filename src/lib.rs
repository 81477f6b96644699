pub mod encode;
pub mod pipeline;
