//! The verified core of dekit: the protocol between its command line and its
//! background server, and what each side does.

pub mod codec;
pub mod console;
pub mod dekit;
pub mod json;
pub mod kernel;
pub mod mprocs;
pub mod protocol;
pub mod text;
