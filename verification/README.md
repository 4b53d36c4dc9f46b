# kiss3d_drm

The verified core of a headless DRM/KMS rendering backend.

- `src/` (Verus): packing of GPU readback rows into RGB or unpadded RGBA and
  the readback error texts (`canvas_utils::pixel_reading`), texture size
  clamping (`canvas_utils::texture_utils`), the DRM canvas error type, the
  connector / CRTC / mode decisions of display discovery and the steps of
  frame presentation (`drm_canvas`), the DRM event queue and its read cursor
  (`drm_events`), the window close state and device fallback order
  (`window_common`) and the screenshot canvas trait (`canvas_traits`).
- `app/`: the GPU transfers and texture creation (wgpu), DRM device queries
  (drm), and the `Rc<RefCell<..>>` event-manager wrapper with its iterator.
- `tests/`: executable scenarios for the library.

The canvas and window types themselves (`DrmCanvas`, `DrmSurfaceTexture`,
`Window`, `WindowCanvas`, `CameraCanvas`) are not part of this crate: they are
built on the rendering context, offscreen buffers, display thread, camera,
renderer and event modules of the renderer they belong to, which are not
included here.
