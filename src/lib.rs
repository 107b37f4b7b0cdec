//! Node identity model and flashing-target resolution for a cluster board
//! management controller.
pub mod identity;
pub mod error;
pub mod resolver;
pub mod matcher;
pub mod locator;
