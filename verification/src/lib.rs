//! Bridge between a native HTTP host and guest request handlers written in JavaScript.

pub mod assoc;
pub mod console;
pub mod dispatch;
pub mod entity;
pub mod error;
pub mod headers;
pub mod laws;
pub mod hostcall;
pub mod lifecycle;
pub mod native;
pub mod options;
pub mod shape;
pub mod value;
pub mod wire;
