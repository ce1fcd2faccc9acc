pub mod chat;
pub mod protocol;
pub mod scroll;
pub mod strutil;
pub mod width;
pub mod wrap;
