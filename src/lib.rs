//! Verified core of a one-shot headset capture tool: status-code mapping for
//! the runtime's subsystems, the frame-polling state machine of the camera
//! stream, read-back of mapped staging textures, side-by-side compositing of
//! the two eyes, and the ordered teardown of the native resource chains.
pub mod compositor;
pub mod directx;
pub mod mirror;
pub mod openvr_load;
pub mod pixels;
pub mod report;
pub mod settings;
pub mod system;
pub mod tracked_camera;
