//! Verified logic of a minimal WebGL2 resource bundle.
//!
//! A bundle draws one white quad on a canvas: it compiles a vertex and a
//! fragment shader, links them, uploads the quad's vertices and indices,
//! describes the vertex layout, and then renders frame after frame. This
//! crate holds every decision of that: which calls are made on the drawing
//! surface, with which arguments and in which order, how the answers of the
//! surface are read, and what the bundle holds afterwards. It makes none of
//! the calls itself. A host issues them and hands the answers back, so the
//! logic here is proved for every answer a surface can give.
//!
//! - [`protocol`]: the commands and replies exchanged with the surface.
//! - [`shader`]: compiling a shader and linking a program, step by step.
//! - [`resources`]: the bundle, its setup and its draw.
//! - [`geometry`]: the quad.
//! - [`error`]: what can go wrong.
//! - [`laws`]: what holds of whole setups and draws.
//! - [`utils`]: a registry of services keyed by type tag.

pub mod error;
pub mod geometry;
pub mod laws;
pub mod protocol;
pub mod resources;
pub mod shader;
pub mod utils;

pub use crate::error::Error;
pub use crate::resources::WebGLResources;
pub use crate::shader::compile_shader;
pub use crate::shader::link_program;
pub use crate::utils::ServiceRegistry;
