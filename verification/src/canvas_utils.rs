//! Shared utilities for canvas implementations.

pub mod pixel_reading;
pub mod texture_utils;
