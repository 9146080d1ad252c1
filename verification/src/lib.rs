//! Image attachments that follow a changing target size, and the
//! fixed-length pipeline of typed steps that keeps them in step with it.
pub mod attach;
pub mod chain;
pub mod plugin;
pub mod store;
