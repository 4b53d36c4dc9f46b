//! Verified core of a headless DRM rendering backend: pixel readback
//! packing, display-discovery decisions, error reporting and the event
//! queue that feeds a DRM window.

pub mod canvas_traits;
pub mod canvas_utils;
pub mod drm_canvas;
pub mod drm_events;
pub mod window_common;
