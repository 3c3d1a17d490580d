//! Decision logic of step-response system identification: picking the
//! sample nearest a target level, the point of steepest slope, and the
//! bracket of Smith's second-order table that holds a time ratio.
//!
//! Real-valued samples are handed to this library as order keys (see
//! [`order_key`]), so that every comparison the methods make is an integer
//! comparison that Verus can reason about.
pub mod identification;
pub mod line_equation;
pub mod order_key;
