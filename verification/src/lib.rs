//! Platform-independent logic of the Lockbook clients: key-code tables,
//! cursor names, pointer and clipboard protocols, the editor toolbar, and the
//! decisions the Linux backend makes around the core library.

pub mod keyboard;
pub mod cursor;
pub mod pointer;
pub mod workspace_ffi;
pub mod clipboard;
pub mod toolbar;
pub mod backend;
pub mod server_file;
pub mod logger;
