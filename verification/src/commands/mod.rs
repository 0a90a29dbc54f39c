//! The xtask's commands, as far as what they decide can be told apart from
//! what they run.

pub mod vm;
pub mod setup;
