//! A store of numbered clipboard slots: the content model, the slot table and
//! its byte image, and the decisions of the command line tool around them.

pub mod bridge;
pub mod clipboard;
pub mod content;
pub mod decimal;
pub mod error;
pub mod frame;
pub mod session;
pub mod wire;
