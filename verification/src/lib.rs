pub mod commands;
pub mod fmt;
pub mod paths;
pub mod guest;
pub mod host;
pub mod provider;
pub mod runner;
pub mod split;
pub mod state;
pub mod text;
