//! Input handling and resource bookkeeping for a small first-person 3D viewer:
//! key bindings, cursor offsets, camera movement steps, shader selection and
//! buffer sizing, each with a proved contract.

pub mod buffer;
pub mod controls;
pub mod input;
pub mod shader;
pub mod viewport;
