//! Verified core of a Half-Life engine tool: locating and hooking engine
//! functions, the text it hands to the engine, and the OpenGL side of frame capture.

pub mod engine;
pub mod hooks;
pub mod main_thread_ref_cell;
pub mod opengl;
pub mod pattern;
