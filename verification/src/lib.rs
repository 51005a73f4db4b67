//! A capability/effect runtime core: a restricted multi-producer,
//! single-consumer channel with type-preserving send-side transforms, a step
//! protocol for asynchronous deliveries, capability contexts for spawning
//! cooperative tasks, and a core driver that runs the application's update
//! logic and correlates asynchronous requests with their responses.

pub mod capability;
pub mod channels;
pub mod driver;
pub mod lsp_ext;
pub mod render;
pub mod step;

pub use step::Step;
