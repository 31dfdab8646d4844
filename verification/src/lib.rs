//! The decisions of a WinFSP front end for an encrypted file system.
//!
//! Windows asks for files by paths and handles, the encrypted file system is asked by inodes. This
//! library decides what is asked of the file system for each request of Windows, and what Windows
//! is told. It does no input or output: an operation is a sequence of steps, each of which either
//! asks for one thing or is the outcome.

pub mod error;
pub mod time;
pub mod clock;
pub mod attr;
pub mod text;
pub mod path;
pub mod request;
pub mod walk;
pub mod context;
pub mod open;
pub mod file;
pub mod order;
pub mod directory;
pub mod volume;
pub mod host;
pub mod mount;
pub mod run;
pub mod read_only;
