//! GPU-resident runtime core of a real-time renderer.
//!
//! The crate models and verifies the logic that a renderer must get right
//! under driver-enforced-by-nobody rules: device memory type selection,
//! bounded buffer overwrites, the image layout transition protocol, the
//! bindless descriptor registry, the frame ring that bounds frames in
//! flight, draw command building, and the culling dispatch. GPU handles and
//! driver calls live outside the crate; the decisions they depend on are
//! proved here on plain values.

pub mod buffer;
pub mod cull;
pub mod descriptor;
pub mod device;
pub mod draw;
pub mod frame;
pub mod image;
pub mod memory;
pub mod model;
pub mod renderer;
pub mod timer;

pub use memory::find_memory_type;
