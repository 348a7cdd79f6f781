//! The kinds of documentation entries.

pub mod alias;
pub mod brief;
pub mod class;
pub mod func;
pub mod module;
pub mod see;
pub mod typedef;
pub mod usage;
