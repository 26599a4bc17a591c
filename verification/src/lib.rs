pub mod client;
pub mod error;
pub mod model;
pub mod numfmt;
pub mod pipeline;
