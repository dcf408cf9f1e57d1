//! Core logic of a small GPU rendering loop: the render-state toggle
//! machine, shader identity resolution, pipeline configuration and its
//! validation, the staged vertex-buffer upload protocol, and the per-frame
//! command plan. All device and window calls live outside this crate; the
//! functions here decide what those calls must do and in which order.

pub mod device;
pub mod frame;
pub mod pipeline;
pub mod shader;
pub mod toggles;
pub mod upload;
