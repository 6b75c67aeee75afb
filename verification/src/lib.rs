//! A native command bridge: the synchronous operations that a window-hosting
//! runtime exposes to its front-end, with their outcomes pinned by contracts.

pub mod bridge;
pub mod dialog;
pub mod errors;
pub mod greeting;
pub mod paths;
