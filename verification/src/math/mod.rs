//! Batch numeric helpers.

pub mod base;
