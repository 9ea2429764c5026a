//! An OpenGL drawing framework: triangle meshes and shader programs that
//! reload themselves when their source files change.
//!
//! The library decides which calls to the driver, the file system and the
//! clock are made, in which order and with which arguments; a caller that
//! owns the context performs each [`protocol::Command`] and hands back the
//! [`protocol::Reply`].
pub mod clock;
pub mod protocol;
pub mod mesh;
pub mod info_log;
pub mod compile;
pub mod shader;
