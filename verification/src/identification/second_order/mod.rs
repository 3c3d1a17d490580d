//! Second-order-plus-dead-time identification methods.
pub mod mollenkamp;
pub mod smith;
