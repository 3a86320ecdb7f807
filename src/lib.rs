use vstd::prelude::*;

pub mod dir;
pub mod ignore;
pub mod lua;
pub mod meta;
pub mod path;
pub mod snapshot;
pub mod text;

pub use lua::{snapshot_lua, ScriptType};
