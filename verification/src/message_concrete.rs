//! What is generated for the methods of `Message`, one module for each.

pub mod method_a;
pub mod method_b;
