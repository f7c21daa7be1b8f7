//! Lifecycle-safe access to a camera pipeline: phase-typed camera sessions,
//! typed control-value marshalling, and frame-buffer bookkeeping.
//!
//! The native pipeline itself (device discovery, format negotiation, buffer
//! memory) is an outside collaborator. Every decision that depends on it takes
//! the pipeline's answer as a plain value (a status code, a list of planes), so
//! that the library's own rules are verified for every answer it may give.
pub mod camera;
pub mod camera_configuration;
pub mod camera_manager;
pub mod control;
pub mod control_info;
pub mod control_list;
pub mod control_value;
pub mod error;
pub mod frame_buffer;
pub mod frame_buffer_allocator;
pub mod geometry;
pub mod pixel_format;
pub mod request;
pub mod stream_configuration;

pub use camera::{AcquiredCamera, AvailableCamera, Camera, ConfiguredCamera, RunningCamera};
pub use camera_configuration::{CameraConfiguration, CameraConfigurationStatus, MIN_BUFFER_COUNT};
pub use camera_manager::CameraManager;
pub use control::{array_extent, ArrayExtent, Control, ControlNamespace, SchemaDimension};
pub use control_info::ControlInfo;
pub use control_list::{ControlEntry, ControlList};
pub use control_value::{
    AssignToRawControlValue, ControlArrayValue, ControlData, ControlElement,
    ControlPrimitiveValue, ControlValue, FromRawControlValue,
};
pub use error::{Error, ErrorKind, EBUSY, EINVAL, EXDEV};
pub use frame_buffer::{
    coalesce_planes, FrameBufferPlane, FrameBufferRef, FrameMetadata, FramePlaneMetadata,
    FrameStatus,
};
pub use frame_buffer_allocator::FrameBufferAllocator;
pub use geometry::{Rectangle, Size};
pub use pixel_format::PixelFormat;
pub use request::{BufferBinding, Request, RequestOutcome, RequestStatus};
pub use stream_configuration::{Stream, StreamConfigurationOpaque, StreamRole};
