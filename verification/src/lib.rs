pub mod digest;
pub mod orchestrate;
pub mod reconcile;
pub mod task;
