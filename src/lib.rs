//! Host-side core of a progressive GPU path tracer: the layout of the uniform
//! block shared with the shader, the per-frame accumulation counter and the
//! rule that ties camera input to accumulation resets.

pub mod layout;
pub mod bytes;
pub mod uniforms;
pub mod frame;
