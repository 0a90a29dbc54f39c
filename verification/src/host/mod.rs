//! The machine this runs on, as far as the VM flows care.

pub mod facts;
